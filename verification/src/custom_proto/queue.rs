//! The queue of actions that wait for `poll`: the first few are held in
//! place, without an allocation, and what comes beyond them in a vector.

use vstd::prelude::*;
use smallvec::SmallVec;
use crate::custom_proto::state::Action;

verus! {

/// Number of actions that are held in place.
pub const INLINE_ACTIONS: usize = 4;

/// A `smallvec::SmallVec` with room for `INLINE_ACTIONS` actions in place.
#[verifier::external_body]
#[derive(Debug)]
pub struct InlineActions {
    inner: SmallVec<[Action; 4]>,
}

/// The actions that the small vector holds, oldest first.
pub uninterp spec fn held(q: InlineActions) -> Seq<Action>;

/// Calls `SmallVec::new`: the new vector holds nothing.
#[verifier::external_body]
pub(crate) fn inline_new() -> (q: InlineActions)
    ensures
        held(q) == Seq::<Action>::empty(),
{
    InlineActions { inner: SmallVec::new() }
}

/// Calls `SmallVec::len`: the number of actions that the vector holds.
#[verifier::external_body]
pub(crate) fn inline_len(q: &InlineActions) -> (n: usize)
    ensures
        n == held(*q).len(),
{
    q.inner.len()
}

/// Calls `SmallVec::push`: the action is appended. A vector that holds fewer
/// actions than it has room for in place takes one more without growing, so
/// the call does not reach the allocation that could fail.
#[verifier::external_body]
pub(crate) fn inline_push(q: &mut InlineActions, action: Action)
    requires
        held(*old(q)).len() < INLINE_ACTIONS,
    ensures
        held(*final(q)) == held(*old(q)).push(action),
{
    q.inner.push(action)
}

/// Calls `SmallVec::remove`: the action at the position leaves the vector and
/// is returned, and those behind it move up. It panics on a position beyond
/// the last.
#[verifier::external_body]
pub(crate) fn inline_remove(q: &mut InlineActions, index: usize) -> (action: Action)
    requires
        index < held(*old(q)).len(),
    ensures
        action == held(*old(q))[index as int],
        held(*final(q)) == held(*old(q)).remove(index as int),
{
    q.inner.remove(index)
}

/// Actions in the order in which they were queued.
#[derive(Debug)]
pub struct ActionQueue {
    /// The oldest actions, at most `INLINE_ACTIONS` of them.
    head: InlineActions,
    /// The actions that were queued while others were waiting beyond the
    /// head; all of them are younger than those of the head.
    rest: Vec<Action>,
}

impl View for ActionQueue {
    type V = Seq<Action>;

    closed spec fn view(&self) -> Seq<Action> {
        held(self.head) + self.rest@
    }
}

impl ActionQueue {
    /// An empty queue.
    pub fn new() -> (q: ActionQueue)
        ensures
            q@ == Seq::<Action>::empty(),
    {
        let q = ActionQueue { head: inline_new(), rest: Vec::new() };
        assert(q@ =~= Seq::<Action>::empty());
        q
    }

    /// Number of actions in the queue, held at `usize::MAX` beyond it.
    pub fn len(&self) -> (n: usize)
        ensures
            n == (if self@.len() > usize::MAX {
                usize::MAX as int
            } else {
                self@.len() as int
            }),
    {
        let in_place = inline_len(&self.head);
        let beyond = self.rest.len();
        if beyond > usize::MAX - in_place {
            usize::MAX
        } else {
            in_place + beyond
        }
    }

    /// True where the queue holds no action.
    pub fn is_empty(&self) -> (b: bool)
        ensures
            b == (self@.len() == 0),
    {
        inline_len(&self.head) == 0 && self.rest.len() == 0
    }

    /// Puts an action behind all that are queued.
    pub fn push(&mut self, action: Action)
        ensures
            final(self)@ == old(self)@.push(action),
    {
        if self.rest.len() == 0 && inline_len(&self.head) < INLINE_ACTIONS {
            inline_push(&mut self.head, action);
            assert(self@ =~= old(self)@.push(action));
        } else {
            self.rest.push(action);
            assert(self@ =~= old(self)@.push(action));
        }
    }

    /// Takes the oldest action out of the queue.
    pub fn pop_front(&mut self) -> (action: Action)
        requires
            old(self)@.len() > 0,
        ensures
            action == old(self)@[0],
            final(self)@ == old(self)@.subrange(1, old(self)@.len() as int),
    {
        if inline_len(&self.head) > 0 {
            let action = inline_remove(&mut self.head, 0);
            assert(self@ =~= old(self)@.subrange(1, old(self)@.len() as int));
            action
        } else {
            let action = self.rest.remove(0);
            assert(self@ =~= old(self)@.subrange(1, old(self)@.len() as int));
            action
        }
    }
}

} // verus!
