//! What holds of the state machine on every input.

use vstd::prelude::*;
use crate::address::{ConnectedPoint, Endpoint, Multiaddr};
use crate::clock::deadline_after;
use crate::custom_proto::state::{
    Action, CustomProtoHandlerOut, CustomProtoOut, Instant, PeerState, ProtocolMessage,
    BAN_MILLIS, CLOGGED_SAMPLES,
};
use crate::custom_proto::table::{
    has_row, lemma_row_unique, lemma_rows_put, lemma_rows_remove, row_of, rows_map, PeerEntry,
};
use crate::custom_proto::transitions::{
    after_dial, after_input, after_node_event, changed_state, clogged_samples, connected_step,
    dials, enable_action, front, popped, sample_of, tick_actions, tick_actions_upto, tick_rows,
    tick_state, ticked, transition, Change, Input, ProtoModel,
};
use crate::identity::PeerId;

verus! {

/// An input for a peer leaves every peer with at most one entry, changes the
/// entry of that peer as the transition says, and leaves every other entry as
/// it was.
pub proof fn law_input_keeps_one_state_per_peer(
    m: ProtoModel,
    peer: PeerId,
    input: Input,
    now: Instant,
)
    requires
        m.wf(),
    ensures
        after_input(m, peer, input, now).wf(),
        after_input(m, peer, input, now).state(peer) == changed_state(
            m.state(peer),
            transition(peer, m.state(peer), input, now, m.next_incoming_index).change,
        ),
        forall|other: PeerId|
            other != peer ==> #[trigger] after_input(m, peer, input, now).state(other) == m.state(
                other,
            ),
{
    let s = transition(peer, m.state(peer), input, now, m.next_incoming_index);
    let after = after_input(m, peer, input, now);
    match s.change {
        Change::Keep => {},
        Change::Put(st) => {
            lemma_rows_put(m.rows, peer, st);
        },
        Change::Remove => {
            lemma_rows_remove(m.rows, peer);
        },
    }
    assert(rows_map(after.rows) == match s.change {
        Change::Keep => rows_map(m.rows),
        Change::Put(st) => rows_map(m.rows).insert(peer, st),
        Change::Remove => rows_map(m.rows).remove(peer),
    });
    assert forall|q: PeerId| has_row(after.rows, q) == rows_map(after.rows).contains_key(q) by {}
    assert forall|q: PeerId| has_row(m.rows, q) == rows_map(m.rows).contains_key(q) by {}
    assert forall|other: PeerId| other != peer implies #[trigger] after.state(other) == m.state(
        other,
    ) by {
        assert(has_row(after.rows, other) == rows_map(after.rows).contains_key(other));
        assert(has_row(m.rows, other) == rows_map(m.rows).contains_key(other));
        if has_row(m.rows, other) {
            assert(rows_map(after.rows)[other] == rows_map(m.rows)[other]);
        }
    }
    assert(has_row(after.rows, peer) == rows_map(after.rows).contains_key(peer));
    assert(has_row(m.rows, peer) == rows_map(m.rows).contains_key(peer));
    if has_row(after.rows, peer) {
        assert(after.state(peer) == Some(rows_map(after.rows)[peer]));
    }
}

/// Queuing a dial of an address, looking at the timers and handing out an
/// action each leave every peer with at most one entry, and change no entry
/// but as its timer says.
pub proof fn law_poll_keeps_one_state_per_peer(m: ProtoModel, address: Multiaddr, now: Instant)
    requires
        m.wf(),
    ensures
        after_dial(m, address).wf(),
        ticked(m, now).wf(),
        popped(ticked(m, now)).wf(),
        forall|peer: PeerId| #[trigger]
            ticked(m, now).state(peer) == (match m.state(peer) {
                Some(s) => Some(tick_state(s, now)),
                None => None,
            }),
{
    let t = tick_rows(m.rows, now);
    assert forall|i: int, j: int| 0 <= i < t.len() && 0 <= j < t.len() && i != j implies t[i].id
        != t[j].id by {
        assert(t[i].id == m.rows[i].id);
        assert(t[j].id == m.rows[j].id);
    }
    assert forall|peer: PeerId| #[trigger]
        ticked(m, now).state(peer) == (match m.state(peer) {
            Some(s) => Some(tick_state(s, now)),
            None => None,
        }) by {
        if has_row(m.rows, peer) {
            let k = row_of(m.rows, peer);
            assert(t[k].id == peer);
            lemma_row_unique(t, k);
        }
        if has_row(t, peer) {
            let k = row_of(t, peer);
            assert(m.rows[k].id == peer);
            lemma_row_unique(m.rows, k);
        }
    }
}

/// The point in time before which a peer in this state is not to be dialled,
/// if there is one.
pub open spec fn ban_of(st: PeerState) -> Option<Instant> {
    match st {
        PeerState::Banned { until, .. } => Some(until),
        PeerState::PendingRequest { deadline } => Some(deadline),
        PeerState::Disabled { banned_until, .. } => banned_until,
        PeerState::DisabledPendingEnable { deadline, .. } => Some(deadline),
        _ => None,
    }
}

/// While a peer is banned, in whatever state it carries the ban, no input for
/// it makes the state machine dial it, and neither does its timer.
pub proof fn law_ban_honoured(
    peer: PeerId,
    st: PeerState,
    input: Input,
    now: Instant,
    next_index: u64,
)
    requires
        ban_of(st) is Some,
        now < ban_of(st)->0,
    ensures
        !dials(transition(peer, Some(st), input, now, next_index).actions, peer),
        !dials(tick_actions(peer, st, now), peer),
        tick_state(st, now) == st,
{
}

/// A substream is open only with a peer whose connection is known, and a peer
/// that is being dialled is under no ban.
pub proof fn law_open_has_connection(st: PeerState)
    ensures
        st.spec_is_open() ==> st.spec_endpoint() is Some,
        st.spec_is_enabled() ==> st.spec_endpoint() is Some,
        st is Requested ==> ban_of(st) is None,
{
}

/// The index for incoming connections never goes back, and it goes up by one
/// exactly where a connection took it.
pub proof fn law_incoming_index_grows(m: ProtoModel, peer: PeerId, input: Input, now: Instant)
    ensures
        after_input(m, peer, input, now).next_incoming_index >= m.next_incoming_index,
        after_input(m, peer, input, now).next_incoming_index == m.next_incoming_index + (
        if transition(peer, m.state(peer), input, now, m.next_incoming_index).took_index {
            1int
        } else {
            0int
        }),
        ticked(m, now).next_incoming_index == m.next_incoming_index,
{
}

/// The timers of the first `n` rows dial a peer only from a row of that peer
/// whose request has waited out its deadline.
pub proof fn lemma_tick_dials(rows: Seq<PeerEntry>, n: int, now: Instant, peer: PeerId)
    requires
        0 <= n <= rows.len(),
        dials(tick_actions_upto(rows, n, now), peer),
    ensures
        exists|k: int|
            0 <= k < n && (#[trigger] rows[k]).id == peer && rows[k].state
                is PendingRequest && rows[k].state->PendingRequest_deadline <= now,
    decreases n,
{
    if n > 0 {
        let head = tick_actions_upto(rows, n - 1, now);
        let last = tick_actions(rows[n - 1].id, rows[n - 1].state, now);
        let all = tick_actions_upto(rows, n, now);
        let i = choose|i: int|
            0 <= i < all.len() && #[trigger] all[i] == (Action::DialPeer { peer_id: peer });
        if i < head.len() {
            assert(head[i] == all[i]);
            lemma_tick_dials(rows, n - 1, now, peer);
        } else {
            assert(last[i - head.len()] == all[i]);
            assert(rows[n - 1].id == peer);
        }
    }
}

/// While a peer is banned, looking at the timers of all peers queues no dial
/// of it.
pub proof fn law_ban_honoured_by_timers(m: ProtoModel, peer: PeerId, now: Instant)
    requires
        m.wf(),
        m.state(peer) is Some,
        ban_of(m.state(peer)->0) is Some,
        now < ban_of(m.state(peer)->0)->0,
    ensures
        !dials(tick_actions_upto(m.rows, m.rows.len() as int, now), peer),
        ticked(m, now).events == m.events + tick_actions_upto(m.rows, m.rows.len() as int, now),
{
    if dials(tick_actions_upto(m.rows, m.rows.len() as int, now), peer) {
        lemma_tick_dials(m.rows, m.rows.len() as int, now, peer);
        let k = choose|k: int|
            0 <= k < m.rows.len() && (#[trigger] m.rows[k]).id == peer && m.rows[k].state
                is PendingRequest && m.rows[k].state->PendingRequest_deadline <= now;
        lemma_row_unique(m.rows, k);
    }
}

/// A timer fires once: a state that the timers were looked at holds no timer
/// that is due at the same time.
pub proof fn law_timers_fire_once(peer: PeerId, st: PeerState, now: Instant)
    ensures
        tick_state(tick_state(st, now), now) == tick_state(st, now),
        tick_actions(peer, tick_state(st, now), now) == Seq::<Action>::empty(),
{
}

/// A poll hands out nothing only where nothing is queued and no timer is due:
/// the queue is empty afterwards, and every action comes out in the order in
/// which it was queued.
pub proof fn law_poll_hands_out_oldest(m: ProtoModel, now: Instant)
    ensures
        front(ticked(m, now)) is None <==> ticked(m, now).events.len() == 0,
        front(ticked(m, now)) is None ==> popped(ticked(m, now)).events.len() == 0,
        m.events.len() > 0 ==> front(ticked(m, now)) == Some(m.events[0]),
        front(ticked(m, now)) is Some ==> ticked(m, now).events == seq![
            front(ticked(m, now))->0,
        ] + popped(ticked(m, now)).events,
{
    let t = ticked(m, now);
    if t.events.len() > 0 {
        assert(t.events =~= seq![t.events[0]] + t.events.subrange(1, t.events.len() as int));
    }
}

/// However many messages wait in a clogged substream, the report of it is
/// passed on with the first `CLOGGED_SAMPLES` of them at most, in their
/// order, and changes no entry.
pub proof fn law_clogged_report_is_capped(
    m: ProtoModel,
    after: ProtoModel,
    peer: PeerId,
    messages: Vec<ProtocolMessage>,
    now: Instant,
)
    requires
        after_node_event(m, after, peer, CustomProtoHandlerOut::Clogged { messages }, now),
    ensures
        after.rows == m.rows,
        after.next_incoming_index == m.next_incoming_index,
        after.events.len() == m.events.len() + 1,
        after.events.subrange(0, m.events.len() as int) == m.events,
        after.events.last() matches Action::GenerateEvent(
            CustomProtoOut::Clogged { peer_id, messages: shown },
        ) && peer_id == peer && shown@ == clogged_samples(messages@) && shown@.len()
            <= CLOGGED_SAMPLES && shown@.len() <= messages@.len() && (forall|i: int|
            0 <= i < shown@.len() ==> shown@[i] == messages@[i]),
{
    let event = CustomProtoHandlerOut::Clogged { messages };
    let shown = choose|shown: Vec<ProtocolMessage>|
        sample_of(event, shown) && after == #[trigger] after_input(
            m,
            peer,
            Input::Node { event, shown },
            now,
        );
    assert(after.events =~= m.events.push(
        Action::GenerateEvent(CustomProtoOut::Clogged { peer_id: peer, messages: shown }),
    ));
    assert(after.events.subrange(0, m.events.len() as int) =~= m.events);
}

/// After a failed dial the next request waits: where a peer that was absent
/// is requested, the dial fails at `failed`, and the peer is requested again
/// at `again` before the ban of `BAN_MILLIS` is over, one dial of the peer
/// has been queued in all, the second request queues nothing, and the peer
/// waits as a pending request for the end of the ban.
pub proof fn law_failed_dial_defers_next_request(
    m: ProtoModel,
    peer: PeerId,
    first: Instant,
    failed: Instant,
    again: Instant,
)
    requires
        m.wf(),
        m.state(peer) is None,
        again < deadline_after(failed, BAN_MILLIS),
    ensures
        ({
            let requested = after_input(m, peer, Input::Connect, first);
            let banned = after_input(requested, peer, Input::DialFailure, failed);
            let deferred = after_input(banned, peer, Input::Connect, again);
            &&& requested.events == m.events.push(Action::DialPeer { peer_id: peer })
            &&& banned.events == requested.events
            &&& deferred.events == requested.events
            &&& deferred.state(peer) == Some(
                PeerState::PendingRequest { deadline: deadline_after(failed, BAN_MILLIS) },
            )
            &&& deferred.wf()
            &&& forall|now: Instant|
                now < deadline_after(failed, BAN_MILLIS) ==> !dials(
                    #[trigger] tick_actions_upto(deferred.rows, deferred.rows.len() as int, now),
                    peer,
                )
        }),
{
    let requested = after_input(m, peer, Input::Connect, first);
    law_input_keeps_one_state_per_peer(m, peer, Input::Connect, first);
    let banned = after_input(requested, peer, Input::DialFailure, failed);
    law_input_keeps_one_state_per_peer(requested, peer, Input::DialFailure, failed);
    let deferred = after_input(banned, peer, Input::Connect, again);
    law_input_keeps_one_state_per_peer(banned, peer, Input::Connect, again);
    assert(requested.events =~= m.events.push(Action::DialPeer { peer_id: peer }));
    assert(banned.events =~= requested.events);
    assert(deferred.events =~= requested.events);
    assert forall|now: Instant| now < deadline_after(failed, BAN_MILLIS) implies !dials(
        #[trigger] tick_actions_upto(deferred.rows, deferred.rows.len() as int, now),
        peer,
    ) by {
        law_ban_honoured_by_timers(deferred, peer, now);
    }
}

/// A connection that a banned peer opened is accepted: the peer is enabled
/// with no substream open yet, its handler is told to enable, and the
/// connection takes the next incoming index. It is turned away only where no
/// index is left.
pub proof fn law_inbound_wins(
    peer: PeerId,
    until: Instant,
    initiator: bool,
    point: ConnectedPoint,
    next_index: u64,
)
    requires
        point.side() == Endpoint::Listener,
        next_index < u64::MAX,
    ensures
        connected_step(
            peer,
            Some(PeerState::Banned { until, initiator }),
            point,
            next_index,
        ).change == Change::Put(PeerState::Enabled { connected_point: point, open: false }),
        connected_step(
            peer,
            Some(PeerState::Banned { until, initiator }),
            point,
            next_index,
        ).actions == seq![enable_action(peer, point)],
        connected_step(
            peer,
            Some(PeerState::Banned { until, initiator }),
            point,
            next_index,
        ).took_index,
{
}

} // verus!
