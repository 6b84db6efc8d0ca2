//! The table of peer states: at most one state for each peer. The states
//! are held in a hash map; a list of the peers in the order in which they
//! entered gives the walk over the table a fixed order.

use vstd::prelude::*;
use crate::custom_proto::index::{index_get, index_insert, index_new, index_remove, StateIndex};
use crate::custom_proto::state::PeerState;
use crate::identity::PeerId;

verus! {

/// One row of the table.
#[derive(Clone, Copy, Debug)]
pub struct PeerEntry {
    pub id: PeerId,
    pub state: PeerState,
}

/// Peer states keyed by peer, walked in the order in which the peers entered.
#[derive(Debug)]
pub struct PeerTable {
    /// The state of each peer that has an entry.
    index: StateIndex,
    /// The peers that have an entry, in the order in which they entered.
    order: Vec<PeerId>,
}

/// The rows that a map of states and a list of peers stand for: one row for
/// each peer of the list, with the state that the map holds for it.
pub open spec fn rows_of(index: Map<u64, PeerState>, order: Seq<PeerId>) -> Seq<PeerEntry> {
    Seq::new(order.len(), |i: int| PeerEntry { id: order[i], state: index[order[i].0] })
}

/// True where the list names each key of the map once and nothing else.
pub open spec fn lists_keys(index: Map<u64, PeerState>, order: Seq<PeerId>) -> bool {
    &&& forall|i: int, j: int| 0 <= i < order.len() && 0 <= j < order.len() && i != j ==> order[i]
        != order[j]
    &&& forall|i: int| 0 <= i < order.len() ==> index.contains_key(#[trigger] order[i].0)
    &&& forall|k: u64|
        #[trigger] index.contains_key(k) ==> exists|i: int|
            0 <= i < order.len() && (#[trigger] order[i]).0 == k
}

/// True where no peer has two rows.
pub open spec fn distinct_ids(rows: Seq<PeerEntry>) -> bool {
    forall|i: int, j: int|
        0 <= i < rows.len() && 0 <= j < rows.len() && i != j ==> rows[i].id != rows[j].id
}

/// True where `id` has a row.
pub open spec fn has_row(rows: Seq<PeerEntry>, id: PeerId) -> bool {
    exists|i: int| 0 <= i < rows.len() && (#[trigger] rows[i]).id == id
}

/// The position of the row of `id`.
pub open spec fn row_of(rows: Seq<PeerEntry>, id: PeerId) -> int {
    choose|i: int| 0 <= i < rows.len() && (#[trigger] rows[i]).id == id
}

/// The map from peer to state that the rows stand for.
pub open spec fn rows_map(rows: Seq<PeerEntry>) -> Map<PeerId, PeerState> {
    Map::new(|id: PeerId| has_row(rows, id), |id: PeerId| rows[row_of(rows, id)].state)
}

/// The state that the rows hold for a peer, `None` where it has no row.
pub open spec fn state_of(rows: Seq<PeerEntry>, id: PeerId) -> Option<PeerState> {
    if has_row(rows, id) {
        Some(rows[row_of(rows, id)].state)
    } else {
        None
    }
}

/// The rows after a state is stored for a peer: in its row if it has one,
/// else in a new last row.
pub open spec fn rows_put(rows: Seq<PeerEntry>, id: PeerId, state: PeerState) -> Seq<PeerEntry> {
    if has_row(rows, id) {
        rows.update(row_of(rows, id), PeerEntry { id, state })
    } else {
        rows.push(PeerEntry { id, state })
    }
}

/// The rows after a peer is taken out; the others keep their order.
pub open spec fn rows_remove(rows: Seq<PeerEntry>, id: PeerId) -> Seq<PeerEntry> {
    if has_row(rows, id) {
        rows.remove(row_of(rows, id))
    } else {
        rows
    }
}

/// With distinct peers, the row found for a peer is the only one that names it.
pub proof fn lemma_row_unique(rows: Seq<PeerEntry>, i: int)
    requires
        distinct_ids(rows),
        0 <= i < rows.len(),
    ensures
        has_row(rows, rows[i].id),
        row_of(rows, rows[i].id) == i,
        state_of(rows, rows[i].id) == Some(rows[i].state),
{
    assert(has_row(rows, rows[i].id));
}

/// Storing a state keeps the peers distinct and stores it in the map.
pub proof fn lemma_rows_put(rows: Seq<PeerEntry>, id: PeerId, state: PeerState)
    requires
        distinct_ids(rows),
    ensures
        distinct_ids(rows_put(rows, id, state)),
        rows_map(rows_put(rows, id, state)) == rows_map(rows).insert(id, state),
{
    if has_row(rows, id) {
        lemma_update_row(rows, row_of(rows, id), state);
    } else {
        lemma_push_row(rows, id, state);
    }
}

/// Taking a peer out keeps the peers distinct and removes it from the map.
pub proof fn lemma_rows_remove(rows: Seq<PeerEntry>, id: PeerId)
    requires
        distinct_ids(rows),
    ensures
        distinct_ids(rows_remove(rows, id)),
        rows_map(rows_remove(rows, id)) == rows_map(rows).remove(id),
{
    if has_row(rows, id) {
        lemma_remove_row(rows, row_of(rows, id));
    } else {
        assert(rows_map(rows) =~= rows_map(rows).remove(id));
    }
}

/// Writing a state into the row of a peer stores it in the map.
pub proof fn lemma_update_row(rows: Seq<PeerEntry>, i: int, state: PeerState)
    requires
        distinct_ids(rows),
        0 <= i < rows.len(),
    ensures
        distinct_ids(rows.update(i, PeerEntry { id: rows[i].id, state })),
        rows_map(rows.update(i, PeerEntry { id: rows[i].id, state })) == rows_map(rows).insert(
            rows[i].id,
            state,
        ),
{
    let after = rows.update(i, PeerEntry { id: rows[i].id, state });
    assert forall|id: PeerId| has_row(after, id) == has_row(rows, id) by {
        if has_row(rows, id) {
            let k = row_of(rows, id);
            assert(after[k].id == id);
        }
        if has_row(after, id) {
            let k = row_of(after, id);
            assert(rows[k].id == id);
        }
    }
    assert forall|id: PeerId| has_row(after, id) implies #[trigger] rows_map(after)[id]
        == rows_map(rows).insert(rows[i].id, state)[id] by {
        let k = row_of(after, id);
        assert(rows[k].id == id);
        let k0 = row_of(rows, id);
        assert(k0 == k);
    }
    assert(rows_map(after) =~= rows_map(rows).insert(rows[i].id, state));
}

/// Adding a row for a peer that has none stores its state in the map.
pub proof fn lemma_push_row(rows: Seq<PeerEntry>, id: PeerId, state: PeerState)
    requires
        distinct_ids(rows),
        !has_row(rows, id),
    ensures
        distinct_ids(rows.push(PeerEntry { id, state })),
        rows_map(rows.push(PeerEntry { id, state })) == rows_map(rows).insert(id, state),
{
    let after = rows.push(PeerEntry { id, state });
    assert(distinct_ids(after)) by {
        assert forall|a: int, b: int|
            0 <= a < after.len() && 0 <= b < after.len() && a != b implies after[a].id
            != after[b].id by {
            if a < rows.len() && b < rows.len() {
            } else if a < rows.len() {
                assert(rows[a].id != id);
            } else {
                assert(rows[b].id != id);
            }
        }
    }
    assert forall|q: PeerId| has_row(after, q) == (has_row(rows, q) || q == id) by {
        if has_row(rows, q) {
            let k = row_of(rows, q);
            assert(after[k].id == q);
        }
        if q == id {
            assert(after[rows.len() as int].id == q);
        }
        if has_row(after, q) && q != id {
            let k = row_of(after, q);
            assert(rows[k].id == q);
        }
    }
    assert forall|q: PeerId| has_row(after, q) implies #[trigger] rows_map(after)[q] == rows_map(
        rows,
    ).insert(id, state)[q] by {
        let k = row_of(after, q);
        if q == id {
            assert(after[rows.len() as int].id == q);
            assert(k == rows.len());
        } else {
            assert(rows[k].id == q);
            let k0 = row_of(rows, q);
            assert(k0 == k);
        }
    }
    assert(rows_map(after) =~= rows_map(rows).insert(id, state));
}

/// Taking the row of a peer out removes the peer from the map.
pub proof fn lemma_remove_row(rows: Seq<PeerEntry>, i: int)
    requires
        distinct_ids(rows),
        0 <= i < rows.len(),
    ensures
        distinct_ids(rows.remove(i)),
        rows_map(rows.remove(i)) == rows_map(rows).remove(rows[i].id),
{
    let after = rows.remove(i);
    let gone = rows[i].id;
    assert forall|a: int| 0 <= a < after.len() implies #[trigger] after[a] == rows[if a < i {
        a
    } else {
        a + 1
    }] by {}
    assert(distinct_ids(after)) by {
        assert forall|a: int, b: int|
            0 <= a < after.len() && 0 <= b < after.len() && a != b implies after[a].id
            != after[b].id by {
            let a0 = if a < i { a } else { a + 1 };
            let b0 = if b < i { b } else { b + 1 };
            assert(after[a] == rows[a0]);
            assert(after[b] == rows[b0]);
        }
    }
    assert forall|q: PeerId| has_row(after, q) == (has_row(rows, q) && q != gone) by {
        if has_row(rows, q) && q != gone {
            let k = row_of(rows, q);
            let k1 = if k < i { k } else { k - 1 };
            assert(after[k1] == rows[k]);
            assert(after[k1].id == q);
        }
        if has_row(after, q) {
            let k = row_of(after, q);
            let k0 = if k < i { k } else { k + 1 };
            assert(after[k] == rows[k0]);
            assert(rows[k0].id == q);
        }
    }
    assert forall|q: PeerId| has_row(after, q) implies #[trigger] rows_map(after)[q] == rows_map(
        rows,
    ).remove(gone)[q] by {
        let k = row_of(after, q);
        let k0 = if k < i { k } else { k + 1 };
        assert(after[k] == rows[k0]);
        assert(rows[k0].id == q);
        let kk = row_of(rows, q);
        assert(kk == k0);
    }
    assert(rows_map(after) =~= rows_map(rows).remove(gone));
}

impl View for PeerTable {
    type V = Map<PeerId, PeerState>;

    open spec fn view(&self) -> Map<PeerId, PeerState> {
        rows_map(self.rows())
    }
}

impl PeerTable {
    /// The invariant of the table: the list of peers names each peer that
    /// has a state once and no other.
    pub closed spec fn wf(&self) -> bool {
        lists_keys(self.index@, self.order@)
    }

    /// The rows in the order in which the peers entered.
    pub closed spec fn rows(&self) -> Seq<PeerEntry> {
        rows_of(self.index@, self.order@)
    }

    /// With the invariant no peer has two rows.
    pub proof fn lemma_distinct(&self)
        requires
            self.wf(),
        ensures
            distinct_ids(self.rows()),
    {
    }

    /// A peer has a row exactly where the hash map holds a state for it, and
    /// the row holds that state.
    proof fn lemma_lookup(&self, id: PeerId)
        requires
            self.wf(),
        ensures
            has_row(self.rows(), id) == self.index@.contains_key(id.0),
            has_row(self.rows(), id) ==> self.rows()[row_of(self.rows(), id)].state
                == self.index@[id.0],
            has_row(self.rows(), id) ==> self.order@[row_of(self.rows(), id)] == id,
    {
        let rows = self.rows();
        if self.index@.contains_key(id.0) {
            let i = choose|i: int| 0 <= i < self.order@.len() && (#[trigger] self.order@[i]).0 == id.0;
            assert(rows[i].id == id);
        }
        if has_row(rows, id) {
            let k = row_of(rows, id);
            assert(rows[k].id == id);
            assert(self.order@[k] == id);
        }
    }

    /// An empty table.
    pub fn new() -> (t: PeerTable)
        ensures
            t.wf(),
            t@ == Map::<PeerId, PeerState>::empty(),
            t.rows() == Seq::<PeerEntry>::empty(),
    {
        let t = PeerTable { index: index_new(), order: Vec::new() };
        assert(t.rows() =~= Seq::<PeerEntry>::empty());
        assert(t@ =~= Map::<PeerId, PeerState>::empty());
        t
    }

    /// Number of peers in the table.
    pub fn len(&self) -> (n: usize)
        ensures
            n == self.rows().len(),
    {
        self.order.len()
    }

    /// The row at a position.
    pub fn row(&self, i: usize) -> (e: PeerEntry)
        requires
            self.wf(),
            i < self.rows().len(),
        ensures
            e == self.rows()[i as int],
    {
        let id = self.order[i];
        match index_get(&self.index, id.0) {
            Some(state) => PeerEntry { id, state },
            None => {
                // The list names only peers that have a state.
                assert(false);
                PeerEntry { id, state: PeerState::Requested }
            },
        }
    }

    /// Position of the row of a peer, if it has one.
    pub fn position(&self, id: PeerId) -> (r: Option<usize>)
        ensures
            match r {
                Some(i) => i < self.rows().len() && self.rows()[i as int].id == id,
                None => !has_row(self.rows(), id),
            },
    {
        let mut i: usize = 0;
        while i < self.order.len()
            invariant
                i <= self.order@.len(),
                forall|k: int| 0 <= k < i ==> (#[trigger] self.order@[k]) != id,
            decreases self.order@.len() - i,
        {
            if self.order[i].0 == id.0 {
                return Some(i);
            }
            i += 1;
        }
        proof {
            if has_row(self.rows(), id) {
                let k = row_of(self.rows(), id);
                assert(self.rows()[k].id == id);
                assert(self.order@[k] == id);
            }
        }
        None
    }

    /// The state of a peer, `None` where it has no entry.
    pub fn get(&self, id: PeerId) -> (r: Option<PeerState>)
        requires
            self.wf(),
        ensures
            r == state_of(self.rows(), id),
            r == (if self@.contains_key(id) {
                Some(self@[id])
            } else {
                None
            }),
    {
        proof {
            self.lemma_lookup(id);
        }
        index_get(&self.index, id.0)
    }

    /// Stores a state for a peer, in its row if it has one, else in a new last
    /// row.
    pub fn set(&mut self, id: PeerId, state: PeerState)
        requires
            old(self).wf(),
        ensures
            final(self).wf(),
            distinct_ids(final(self).rows()),
            final(self)@ == old(self)@.insert(id, state),
            final(self).rows() == rows_put(old(self).rows(), id, state),
    {
        let ghost rows = self.rows();
        proof {
            self.lemma_lookup(id);
            self.lemma_distinct();
            lemma_rows_put(rows, id, state);
        }
        let known = index_get(&self.index, id.0);
        match known {
            Some(_) => {
                index_insert(&mut self.index, id.0, state);
                assert(self.rows() =~= rows.update(row_of(rows, id), PeerEntry { id, state }));
            },
            None => {
                self.order.push(id);
                index_insert(&mut self.index, id.0, state);
                assert(self.rows() =~= rows.push(PeerEntry { id, state }));
                assert forall|k: u64| #[trigger] self.index@.contains_key(k) implies exists|i: int|
                    0 <= i < self.order@.len() && (#[trigger] self.order@[i]).0 == k by {
                    if k == id.0 {
                        assert(self.order@[self.order@.len() - 1].0 == k);
                    } else {
                        let i = choose|i: int|
                            0 <= i < old(self).order@.len() && (#[trigger] old(self).order@[i]).0
                                == k;
                        assert(self.order@[i].0 == k);
                    }
                }
            },
        }
    }

    /// Writes a state into the row at a position.
    pub fn set_row(&mut self, i: usize, state: PeerState)
        requires
            old(self).wf(),
            i < old(self).rows().len(),
        ensures
            final(self).wf(),
            distinct_ids(final(self).rows()),
            final(self)@ == old(self)@.insert(old(self).rows()[i as int].id, state),
            final(self).rows() == old(self).rows().update(
                i as int,
                PeerEntry { id: old(self).rows()[i as int].id, state },
            ),
    {
        let ghost rows = self.rows();
        proof {
            self.lemma_distinct();
            lemma_update_row(rows, i as int, state);
        }
        let id = self.order[i];
        index_insert(&mut self.index, id.0, state);
        assert(self.rows() =~= rows.update(i as int, PeerEntry { id, state }));
    }

    /// Takes a peer out of the table; the other rows keep their order.
    pub fn remove(&mut self, id: PeerId)
        requires
            old(self).wf(),
        ensures
            final(self).wf(),
            distinct_ids(final(self).rows()),
            final(self)@ == old(self)@.remove(id),
            final(self).rows() == rows_remove(old(self).rows(), id),
    {
        let ghost rows = self.rows();
        proof {
            self.lemma_lookup(id);
            self.lemma_distinct();
            lemma_rows_remove(rows, id);
        }
        match self.position(id) {
            Some(i) => {
                proof {
                    lemma_row_unique(rows, i as int);
                }
                self.order.remove(i);
                index_remove(&mut self.index, id.0);
                assert(self.rows() =~= rows.remove(i as int));
                assert forall|k: u64| #[trigger] self.index@.contains_key(k) implies exists|j: int|
                    0 <= j < self.order@.len() && (#[trigger] self.order@[j]).0 == k by {
                    let j0 = choose|j: int|
                        0 <= j < old(self).order@.len() && (#[trigger] old(self).order@[j]).0 == k;
                    let j1 = if j0 < i { j0 } else { j0 - 1 };
                    assert(old(self).order@[j0] != id);
                    assert(self.order@[j1] == old(self).order@[j0]);
                }
            },
            None => {},
        }
    }
}

} // verus!
