//! The transition rules of the state machine, as functions from the state of
//! one peer and an input to the change of that state and the actions emitted.

use vstd::prelude::*;
use crate::address::{ConnectedPoint, Endpoint, Multiaddr};
use crate::clock::{deadline_after, later_of};
use crate::custom_proto::state::{
    Action, CloseReason, CustomProtoHandlerIn, CustomProtoHandlerOut, CustomProtoOut, Instant,
    PeerState, ProtocolId, ProtocolMessage, BAN_MILLIS, CLOGGED_SAMPLES,
};
use crate::custom_proto::table::{
    distinct_ids, rows_map, rows_put, rows_remove, state_of, PeerEntry,
};
use crate::identity::PeerId;

verus! {

/// What a transition does to the entry of the peer it concerns.
pub enum Change {
    /// The entry stays as it is, present or absent.
    Keep,
    /// The entry holds this state afterwards.
    Put(PeerState),
    /// The peer has no entry afterwards.
    Remove,
}

/// Outcome of a transition for one peer.
pub struct Step {
    pub change: Change,
    pub actions: Seq<Action>,
    /// True where the transition took an index for an incoming connection.
    pub took_index: bool,
}

/// The abstract state of the state machine.
pub struct ProtoModel {
    /// One row for each peer with an entry, in the order of entering.
    pub rows: Seq<PeerEntry>,
    /// The actions queued for `poll`, oldest first.
    pub events: Seq<Action>,
    /// The index that the next incoming connection gets.
    pub next_incoming_index: u64,
    /// The protocol that the state machine serves.
    pub protocol_id: ProtocolId,
}

impl ProtoModel {
    /// The state of each peer that has an entry.
    pub open spec fn peers(self) -> Map<PeerId, PeerState> {
        rows_map(self.rows)
    }

    /// The state of one peer, `None` where it has no entry.
    pub open spec fn state(self, peer: PeerId) -> Option<PeerState> {
        state_of(self.rows, peer)
    }

    /// True where no peer has two entries.
    pub open spec fn wf(self) -> bool {
        distinct_ids(self.rows)
    }
}

/// A step that changes nothing and emits nothing.
pub open spec fn no_step() -> Step {
    Step { change: Change::Keep, actions: Seq::empty(), took_index: false }
}

/// A step that changes the entry and emits the given actions.
pub open spec fn step(change: Change, actions: Seq<Action>) -> Step {
    Step { change, actions, took_index: false }
}

/// The action that enables the handler of a peer connected through `point`.
pub open spec fn enable_action(peer: PeerId, point: ConnectedPoint) -> Action {
    Action::SendEvent { peer_id: peer, event: CustomProtoHandlerIn::Enable(point.side()) }
}

/// The action that disables the handler of a peer.
pub open spec fn disable_action(peer: PeerId) -> Action {
    Action::SendEvent { peer_id: peer, event: CustomProtoHandlerIn::Disable }
}

/// The report that the protocol with a peer was closed.
pub open spec fn closed_action(peer: PeerId, point: ConnectedPoint, reason: CloseReason) -> Action {
    Action::GenerateEvent(
        CustomProtoOut::CustomProtocolClosed { peer_id: peer, endpoint: point, reason },
    )
}

/// The entry of a peer after a change.
pub open spec fn changed_state(before: Option<PeerState>, change: Change) -> Option<PeerState> {
    match change {
        Change::Keep => before,
        Change::Put(s) => Some(s),
        Change::Remove => None,
    }
}

/// The rows after a change to the entry of a peer.
pub open spec fn changed_rows(rows: Seq<PeerEntry>, peer: PeerId, change: Change) -> Seq<
    PeerEntry,
> {
    match change {
        Change::Keep => rows,
        Change::Put(s) => rows_put(rows, peer, s),
        Change::Remove => rows_remove(rows, peer),
    }
}

/// The state machine after a step for a peer.
pub open spec fn apply_step(m: ProtoModel, peer: PeerId, s: Step) -> ProtoModel {
    ProtoModel {
        rows: changed_rows(m.rows, peer, s.change),
        events: m.events + s.actions,
        next_incoming_index: if s.took_index {
            (m.next_incoming_index + 1) as u64
        } else {
            m.next_incoming_index
        },
        protocol_id: m.protocol_id,
    }
}

/// The user asks to connect to a peer.
///
/// An absent peer, or one whose ban is over, is dialled. A peer under a ban
/// waits for the end of the ban. An idle connection is enabled, at once or at
/// the end of its ban. Anything else is already under way.
pub open spec fn connect_step(peer: PeerId, st: Option<PeerState>, now: Instant) -> Step {
    match st {
        None => step(Change::Put(PeerState::Requested), seq![Action::DialPeer { peer_id: peer }]),
        Some(PeerState::Banned { until, .. }) => if until > now {
            step(Change::Put(PeerState::PendingRequest { deadline: until }), Seq::empty())
        } else {
            step(Change::Put(PeerState::Requested), seq![Action::DialPeer { peer_id: peer }])
        },
        Some(PeerState::Disabled { connected_point, open, banned_until }) => if banned_until
            is Some && banned_until->0 > now {
            step(
                Change::Put(
                    PeerState::DisabledPendingEnable {
                        connected_point,
                        open,
                        deadline: banned_until->0,
                    },
                ),
                Seq::empty(),
            )
        } else {
            step(
                Change::Put(PeerState::Enabled { connected_point, open }),
                seq![enable_action(peer, connected_point)],
            )
        },
        Some(_) => no_step(),
    }
}

/// The user asks to drop a peer, without forbidding a new connection.
pub open spec fn disconnect_step(peer: PeerId, st: Option<PeerState>) -> Step {
    match st {
        Some(PeerState::DisabledPendingEnable { connected_point, open, deadline }) => step(
            Change::Put(
                PeerState::Disabled { connected_point, open, banned_until: Some(deadline) },
            ),
            Seq::empty(),
        ),
        Some(PeerState::Enabled { connected_point, open }) => step(
            Change::Put(PeerState::Disabled { connected_point, open, banned_until: None }),
            seq![disable_action(peer)],
        ),
        Some(PeerState::Requested) => step(Change::Remove, Seq::empty()),
        Some(PeerState::PendingRequest { deadline }) => step(
            Change::Put(PeerState::Banned { until: deadline, initiator: true }),
            Seq::empty(),
        ),
        _ => no_step(),
    }
}

/// The state machine itself drops a peer, with a ban of `ban` milliseconds
/// where one is given.
pub open spec fn disconnect_inner_step(
    peer: PeerId,
    st: Option<PeerState>,
    ban: Option<u64>,
    now: Instant,
) -> Step {
    match st {
        Some(PeerState::DisabledPendingEnable { connected_point, open, deadline }) => step(
            Change::Put(
                PeerState::Disabled {
                    connected_point,
                    open,
                    banned_until: Some(
                        match ban {
                            Some(d) => later_of(deadline, deadline_after(now, d)),
                            None => deadline,
                        },
                    ),
                },
            ),
            Seq::empty(),
        ),
        Some(PeerState::Enabled { connected_point, open }) => step(
            Change::Put(
                PeerState::Disabled {
                    connected_point,
                    open,
                    banned_until: match ban {
                        Some(d) => Some(deadline_after(now, d)),
                        None => None,
                    },
                },
            ),
            seq![disable_action(peer)],
        ),
        _ => no_step(),
    }
}

/// The transport reports a connection to a peer.
///
/// A requested peer is enabled. So is an absent or banned one: a ban holds
/// back dials only. Where the remote dialled such a peer the connection takes
/// the next incoming index, and is turned away where no index is left.
pub open spec fn connected_step(
    peer: PeerId,
    st: Option<PeerState>,
    point: ConnectedPoint,
    next_index: u64,
) -> Step {
    let enabled = Change::Put(PeerState::Enabled { connected_point: point, open: false });
    match st {
        Some(PeerState::Requested) | Some(PeerState::PendingRequest { .. }) => step(
            enabled,
            seq![enable_action(peer, point)],
        ),
        None | Some(PeerState::Banned { .. }) => if point.side() == Endpoint::Listener {
            if next_index == u64::MAX {
                no_step()
            } else {
                Step { change: enabled, actions: seq![enable_action(peer, point)], took_index: true }
            }
        } else {
            step(enabled, seq![enable_action(peer, point)])
        },
        Some(_) => no_step(),
    }
}

/// The ban that outlives the connection of a peer, if any.
pub open spec fn residual_ban(st: PeerState) -> Option<PeerState> {
    match st {
        PeerState::Disabled { connected_point, banned_until: Some(until), .. } => Some(
            PeerState::Banned { until, initiator: connected_point.side() == Endpoint::Dialer },
        ),
        PeerState::DisabledPendingEnable { connected_point, deadline, .. } => Some(
            PeerState::Banned {
                until: deadline,
                initiator: connected_point.side() == Endpoint::Dialer,
            },
        ),
        _ => None,
    }
}

/// The transport reports that the connection to a peer is gone.
///
/// The entry goes, but for a ban that is still to run. Where the protocol was
/// open its closing is reported.
pub open spec fn disconnected_step(peer: PeerId, st: Option<PeerState>) -> Step {
    match st {
        None => no_step(),
        Some(s) => step(
            match residual_ban(s) {
                Some(b) => Change::Put(b),
                None => Change::Remove,
            },
            if s.spec_endpoint() is Some && s.spec_is_open() {
                seq![closed_action(peer, s.spec_endpoint()->0, CloseReason::Disconnected)]
            } else {
                Seq::empty()
            },
        ),
    }
}

/// The transport reports that dialling a peer failed: a peer that was
/// requested is banned for `BAN_MILLIS`.
pub open spec fn dial_failure_step(st: Option<PeerState>, now: Instant) -> Step {
    match st {
        Some(PeerState::Requested) | Some(PeerState::PendingRequest { .. }) => step(
            Change::Put(
                PeerState::Banned { until: deadline_after(now, BAN_MILLIS), initiator: true },
            ),
            Seq::empty(),
        ),
        _ => no_step(),
    }
}

/// The handler of a peer reports that the substream was opened.
pub open spec fn opened_step(peer: PeerId, st: Option<PeerState>, version: u8) -> Step {
    match st {
        Some(s) => if s.spec_endpoint() is Some && !s.spec_is_open() {
            step(
                Change::Put(with_open(s, true)),
                seq![
                    Action::GenerateEvent(
                        CustomProtoOut::CustomProtocolOpen {
                            version,
                            peer_id: peer,
                            endpoint: s.spec_endpoint()->0,
                        },
                    ),
                ],
            )
        } else {
            no_step()
        },
        None => no_step(),
    }
}

/// A connected state with its `open` flag set to `open`; any other state
/// unchanged.
pub open spec fn with_open(st: PeerState, open: bool) -> PeerState {
    match st {
        PeerState::Enabled { connected_point, .. } => PeerState::Enabled { connected_point, open },
        PeerState::Disabled { connected_point, banned_until, .. } => PeerState::Disabled {
            connected_point,
            open,
            banned_until,
        },
        PeerState::DisabledPendingEnable {
            connected_point,
            deadline,
            ..
        } => PeerState::DisabledPendingEnable { connected_point, open, deadline },
        other => other,
    }
}

/// The handler of a peer reports that the substream was closed.
///
/// The closing is reported for a connected peer. An enabled peer is disabled;
/// a disabled one keeps its ban.
pub open spec fn closed_step(peer: PeerId, st: Option<PeerState>, reason: String) -> Step {
    match st {
        Some(PeerState::Enabled { connected_point, .. }) => step(
            Change::Put(
                PeerState::Disabled { connected_point, open: false, banned_until: None },
            ),
            seq![
                closed_action(peer, connected_point, CloseReason::Handler(reason)),
                disable_action(peer),
            ],
        ),
        Some(s) => if s.spec_endpoint() is Some {
            step(
                Change::Put(with_open(s, false)),
                seq![closed_action(peer, s.spec_endpoint()->0, CloseReason::Handler(reason))],
            )
        } else {
            no_step()
        },
        None => no_step(),
    }
}

/// The handler of a peer hands in a message: it is passed on with the
/// connected point of the peer.
pub open spec fn message_step(
    peer: PeerId,
    st: Option<PeerState>,
    message: ProtocolMessage,
) -> Step {
    match st {
        Some(s) => if s.spec_endpoint() is Some {
            step(
                Change::Keep,
                seq![
                    Action::GenerateEvent(
                        CustomProtoOut::CustomMessage {
                            peer_id: peer,
                            endpoint: s.spec_endpoint()->0,
                            message,
                        },
                    ),
                ],
            )
        } else {
            no_step()
        },
        None => no_step(),
    }
}

/// What a timer does to a state at `now`: a pending request whose deadline
/// has come is dialled, a pending enable whose deadline has come is enabled.
pub open spec fn tick_state(st: PeerState, now: Instant) -> PeerState {
    match st {
        PeerState::PendingRequest { deadline } => if deadline > now {
            st
        } else {
            PeerState::Requested
        },
        PeerState::DisabledPendingEnable { connected_point, open, deadline } => if deadline > now {
            st
        } else {
            PeerState::Enabled { connected_point, open }
        },
        _ => st,
    }
}

/// The actions that the timer of a state emits at `now`.
pub open spec fn tick_actions(peer: PeerId, st: PeerState, now: Instant) -> Seq<Action> {
    match st {
        PeerState::PendingRequest { deadline } => if deadline > now {
            Seq::empty()
        } else {
            seq![Action::DialPeer { peer_id: peer }]
        },
        PeerState::DisabledPendingEnable { connected_point, deadline, .. } => if deadline > now {
            Seq::empty()
        } else {
            seq![enable_action(peer, connected_point)]
        },
        _ => Seq::empty(),
    }
}

/// The rows after every timer was looked at.
pub open spec fn tick_rows(rows: Seq<PeerEntry>, now: Instant) -> Seq<PeerEntry> {
    Seq::new(
        rows.len(),
        |i: int| PeerEntry { id: rows[i].id, state: tick_state(rows[i].state, now) },
    )
}

/// The actions that the timers of the first `n` rows emit, in row order.
pub open spec fn tick_actions_upto(rows: Seq<PeerEntry>, n: int, now: Instant) -> Seq<Action>
    decreases n,
{
    if n <= 0 {
        Seq::empty()
    } else {
        tick_actions_upto(rows, n - 1, now) + tick_actions(rows[n - 1].id, rows[n - 1].state, now)
    }
}

/// The state machine after the timers were looked at, before an action is
/// handed out.
pub open spec fn ticked(m: ProtoModel, now: Instant) -> ProtoModel {
    ProtoModel {
        rows: tick_rows(m.rows, now),
        events: m.events + tick_actions_upto(m.rows, m.rows.len() as int, now),
        next_incoming_index: m.next_incoming_index,
        protocol_id: m.protocol_id,
    }
}

/// The state machine after its oldest queued action, if any, was handed out.
pub open spec fn popped(m: ProtoModel) -> ProtoModel {
    ProtoModel {
        rows: m.rows,
        events: if m.events.len() > 0 {
            m.events.subrange(1, m.events.len() as int)
        } else {
            m.events
        },
        next_incoming_index: m.next_incoming_index,
        protocol_id: m.protocol_id,
    }
}

/// The oldest queued action, if any.
pub open spec fn front(m: ProtoModel) -> Option<Action> {
    if m.events.len() > 0 {
        Some(m.events[0])
    } else {
        None
    }
}

/// The messages of a clogged substream that are passed on: the first
/// `CLOGGED_SAMPLES`, or all where there are fewer, in their order.
pub open spec fn clogged_samples(messages: Seq<ProtocolMessage>) -> Seq<ProtocolMessage> {
    if messages.len() > CLOGGED_SAMPLES {
        messages.subrange(0, CLOGGED_SAMPLES as int)
    } else {
        messages
    }
}

/// True where `shown` holds what is passed on of a report of the handler: for
/// a clogged report the messages that `clogged_samples` keeps of it. Any
/// other report passes nothing of the kind on, and `shown` plays no part.
pub open spec fn sample_of(event: CustomProtoHandlerOut, shown: Vec<ProtocolMessage>) -> bool {
    match event {
        CustomProtoHandlerOut::Clogged { messages } => shown@ == clogged_samples(messages@),
        _ => true,
    }
}

/// The handler of a peer reports an event.
///
/// A clogged report is passed on with `shown` in place of its messages: the
/// sample that `sample_of` admits, at most `CLOGGED_SAMPLES` of them. A
/// protocol error that is not severe changes nothing; a severe one drops the
/// peer with a ban of `BAN_MILLIS`.
pub open spec fn node_event_step(
    peer: PeerId,
    st: Option<PeerState>,
    event: CustomProtoHandlerOut,
    shown: Vec<ProtocolMessage>,
    now: Instant,
) -> Step {
    match event {
        CustomProtoHandlerOut::CustomProtocolClosed { reason } => closed_step(peer, st, reason),
        CustomProtoHandlerOut::CustomProtocolOpen { version } => opened_step(peer, st, version),
        CustomProtoHandlerOut::CustomMessage { message } => message_step(peer, st, message),
        CustomProtoHandlerOut::Clogged { .. } => step(
            Change::Keep,
            seq![
                Action::GenerateEvent(CustomProtoOut::Clogged { peer_id: peer, messages: shown }),
            ],
        ),
        CustomProtoHandlerOut::ProtocolError { is_severe, .. } => if is_severe {
            disconnect_inner_step(peer, st, Some(BAN_MILLIS), now)
        } else {
            no_step()
        },
    }
}

/// The user hands in a message for a peer: it goes to the handler where the
/// protocol is open with the peer, and is dropped otherwise.
pub open spec fn send_step(peer: PeerId, st: Option<PeerState>, message: ProtocolMessage) -> Step {
    if st is Some && st->0.spec_is_open() {
        step(
            Change::Keep,
            seq![
                Action::SendEvent {
                    peer_id: peer,
                    event: CustomProtoHandlerIn::SendCustomMessage { message },
                },
            ],
        )
    } else {
        no_step()
    }
}

/// An input that concerns one peer.
pub enum Input {
    /// The user asks to connect to the peer.
    Connect,
    /// The user asks to drop the peer.
    Disconnect,
    /// The user hands in a message for the peer.
    Send(ProtocolMessage),
    /// The transport reports a connection to the peer.
    Connected(ConnectedPoint),
    /// The transport reports that the connection to the peer is gone.
    Disconnected,
    /// The transport reports that dialling the peer failed.
    DialFailure,
    /// The handler of the peer reports an event; `shown` is the sample with
    /// which a clogged report is passed on.
    Node { event: CustomProtoHandlerOut, shown: Vec<ProtocolMessage> },
}

/// The step that an input for a peer causes at `now`.
pub open spec fn transition(
    peer: PeerId,
    st: Option<PeerState>,
    input: Input,
    now: Instant,
    next_index: u64,
) -> Step {
    match input {
        Input::Connect => connect_step(peer, st, now),
        Input::Disconnect => disconnect_step(peer, st),
        Input::Send(message) => send_step(peer, st, message),
        Input::Connected(point) => connected_step(peer, st, point, next_index),
        Input::Disconnected => disconnected_step(peer, st),
        Input::DialFailure => dial_failure_step(st, now),
        Input::Node { event, shown } => node_event_step(peer, st, event, shown, now),
    }
}

/// The state machine after an input for a peer at `now`.
pub open spec fn after_input(
    m: ProtoModel,
    peer: PeerId,
    input: Input,
    now: Instant,
) -> ProtoModel {
    apply_step(m, peer, transition(peer, m.state(peer), input, now, m.next_incoming_index))
}

/// True where `after` is the state machine after the handler of `peer`
/// reported `event` at `now`: the step is that of the report, and a clogged
/// report is passed on with the sample of its messages.
pub open spec fn after_node_event(
    m: ProtoModel,
    after: ProtoModel,
    peer: PeerId,
    event: CustomProtoHandlerOut,
    now: Instant,
) -> bool {
    exists|shown: Vec<ProtocolMessage>|
        sample_of(event, shown) && after == #[trigger] after_input(
            m,
            peer,
            Input::Node { event, shown },
            now,
        )
}

/// The state machine after the user asked to dial an address: the dial is
/// queued and no entry changes.
pub open spec fn after_dial(m: ProtoModel, address: Multiaddr) -> ProtoModel {
    ProtoModel {
        rows: m.rows,
        events: m.events.push(Action::DialAddress { address }),
        next_incoming_index: m.next_incoming_index,
        protocol_id: m.protocol_id,
    }
}

/// True where `actions` holds a dial of `peer`.
pub open spec fn dials(actions: Seq<Action>, peer: PeerId) -> bool {
    exists|i: int| 0 <= i < actions.len() && #[trigger] actions[i] == (Action::DialPeer {
        peer_id: peer,
    })
}

} // verus!
