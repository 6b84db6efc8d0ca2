//! The peer registry: the public key of each peer that completed the secure
//! handshake, and the peers that are blocked.

use vstd::prelude::*;
use std::collections::HashMap;
use crate::clock::{deadline_after, instant_after, Clock};
use crate::identity::{KeyView, PeerId, PublicKey};

verus! {

/// Why a peer is blocked and for how long.
#[derive(Clone, Copy, Debug, PartialEq, Eq)]
pub enum BlockedState {
    /// Blocked until the given point in time, in milliseconds on the clock of
    /// the registry.
    Timeout(u64),
    /// Blocked until it is unblocked.
    Indefinite,
}

/// The abstract state of the registry, keyed by the handle of the peer.
pub struct RegistryModel {
    pub keys: Map<u64, KeyView>,
    pub blocked: Map<u64, BlockedState>,
}

/// True where `peer` may be connected to at `now`: it is not blocked, or its
/// block had a deadline that has come.
pub open spec fn allowed_at(blocked: Map<u64, BlockedState>, peer: u64, now: u64) -> bool {
    !blocked.contains_key(peer) || match blocked[peer] {
        BlockedState::Timeout(deadline) => now >= deadline,
        BlockedState::Indefinite => false,
    }
}

/// The blocks after `allowed` was asked of `peer` at `now`: a block that has
/// run out is gone.
pub open spec fn blocked_after_allowed(
    blocked: Map<u64, BlockedState>,
    peer: u64,
    now: u64,
) -> Map<u64, BlockedState> {
    if blocked.contains_key(peer) && allowed_at(blocked, peer, now) {
        blocked.remove(peer)
    } else {
        blocked
    }
}

/// The block that `block` stores at `now`: with a timeout in milliseconds one
/// that runs out that much later, without one an indefinite block.
pub open spec fn block_of(timeout: Option<u64>, now: u64) -> BlockedState {
    match timeout {
        Some(ms) => BlockedState::Timeout(deadline_after(now, ms)),
        None => BlockedState::Indefinite,
    }
}

/// Registry of peers.
#[derive(Debug)]
pub struct PeerManager {
    keystore: HashMap<u64, PublicKey>,
    blocked: HashMap<u64, BlockedState>,
    clock: Clock,
}

impl View for PeerManager {
    type V = RegistryModel;

    closed spec fn view(&self) -> RegistryModel {
        RegistryModel {
            keys: self.keystore@.map_values(|k: PublicKey| k@),
            blocked: self.blocked@,
        }
    }
}

impl PeerManager {
    /// A registry that knows no key and blocks no peer.
    pub fn new() -> (m: PeerManager)
        ensures
            m@.keys == Map::<u64, KeyView>::empty(),
            m@.blocked == Map::<u64, BlockedState>::empty(),
    {
        let m = PeerManager {
            keystore: HashMap::new(),
            blocked: HashMap::new(),
            clock: Clock::new(),
        };
        assert(m@.keys =~= Map::<u64, KeyView>::empty());
        m
    }

    /// The key of a peer, `None` where none is stored.
    pub fn get_key(&self, peer_id: &PeerId) -> (r: Option<PublicKey>)
        ensures
            match r {
                Some(k) => self@.keys.contains_key(peer_id.0) && k@ == self@.keys[peer_id.0],
                None => !self@.keys.contains_key(peer_id.0),
            },
    {
        match self.keystore.get(&peer_id.0) {
            Some(public_key) => Some(public_key.duplicate()),
            None => None,
        }
    }

    /// Stores the key of a peer in place of any that was stored for it.
    pub fn add_key(&mut self, peer_id: &PeerId, public_key: &PublicKey)
        ensures
            final(self)@.keys == old(self)@.keys.insert(peer_id.0, public_key@),
            final(self)@.blocked == old(self)@.blocked,
    {
        self.keystore.insert(peer_id.0, public_key.duplicate());
        assert(self@.keys =~= old(self)@.keys.insert(peer_id.0, public_key@));
    }

    /// Takes the key of a peer out and returns it, `None` where none was
    /// stored.
    pub fn remove_key(&mut self, peer_id: &PeerId) -> (r: Option<PublicKey>)
        ensures
            final(self)@.keys == old(self)@.keys.remove(peer_id.0),
            final(self)@.blocked == old(self)@.blocked,
            match r {
                Some(k) => old(self)@.keys.contains_key(peer_id.0) && k@
                    == old(self)@.keys[peer_id.0],
                None => !old(self)@.keys.contains_key(peer_id.0),
            },
    {
        let r = self.keystore.remove(&peer_id.0);
        assert(self@.keys =~= old(self)@.keys.remove(peer_id.0));
        r
    }

    /// Says at `now` whether a peer may be connected to. A block that has run
    /// out is removed.
    pub fn allowed_at(&mut self, peer_id: &PeerId, now: u64) -> (r: bool)
        ensures
            r == allowed_at(old(self)@.blocked, peer_id.0, now),
            final(self)@.blocked == blocked_after_allowed(old(self)@.blocked, peer_id.0, now),
            final(self)@.keys == old(self)@.keys,
    {
        let state = match self.blocked.get(&peer_id.0) {
            Some(s) => Some(*s),
            None => None,
        };
        match state {
            None => true,
            Some(BlockedState::Indefinite) => false,
            Some(BlockedState::Timeout(deadline)) => {
                if now >= deadline {
                    self.blocked.remove(&peer_id.0);
                    true
                } else {
                    false
                }
            },
        }
    }

    /// Says whether a peer may be connected to. The clock is read once, and
    /// the answer is that of `allowed_at` at that time.
    pub fn allowed(&mut self, peer_id: &PeerId) -> (r: bool)
        ensures
            exists|now: u64|
                r == #[trigger] allowed_at(old(self)@.blocked, peer_id.0, now)
                    && final(self)@.blocked == blocked_after_allowed(
                    old(self)@.blocked,
                    peer_id.0,
                    now,
                ),
            final(self)@.keys == old(self)@.keys,
    {
        let now = self.clock.now();
        self.allowed_at(peer_id, now)
    }

    /// Blocks a peer at `now`: for `timeout` milliseconds where one is given,
    /// else until it is unblocked.
    pub fn block_at(&mut self, peer_id: &PeerId, timeout: Option<u64>, now: u64)
        ensures
            final(self)@.blocked == old(self)@.blocked.insert(peer_id.0, block_of(timeout, now)),
            final(self)@.keys == old(self)@.keys,
    {
        let state = match timeout {
            Some(ms) => BlockedState::Timeout(instant_after(now, ms)),
            None => BlockedState::Indefinite,
        };
        self.blocked.insert(peer_id.0, state);
    }

    /// Blocks a peer. The clock is read once, and the block is that of
    /// `block_at` at that time.
    pub fn block(&mut self, peer_id: &PeerId, timeout: Option<u64>)
        ensures
            exists|now: u64|
                final(self)@.blocked == old(self)@.blocked.insert(
                    peer_id.0,
                    #[trigger] block_of(timeout, now),
                ),
            final(self)@.keys == old(self)@.keys,
    {
        let now = self.clock.now();
        self.block_at(peer_id, timeout, now);
    }

    /// Lifts the block of a peer and says whether there was one.
    pub fn unblock(&mut self, peer_id: &PeerId) -> (r: bool)
        ensures
            r == old(self)@.blocked.contains_key(peer_id.0),
            final(self)@.blocked == old(self)@.blocked.remove(peer_id.0),
            final(self)@.keys == old(self)@.keys,
    {
        match self.blocked.remove(&peer_id.0) {
            Some(_) => true,
            None => false,
        }
    }
}

/// A block with a timeout is over once more than the timeout has passed: the
/// peer is allowed again and its block is gone.
pub proof fn law_timeout_expires(
    blocked: Map<u64, BlockedState>,
    peer: u64,
    ms: u64,
    now: u64,
    later: u64,
)
    requires
        later > now + ms,
    ensures
        allowed_at(blocked.insert(peer, block_of(Some(ms), now)), peer, later),
        !blocked_after_allowed(
            blocked.insert(peer, block_of(Some(ms), now)),
            peer,
            later,
        ).contains_key(peer),
{
}

/// A block holds before its deadline, and one without a timeout holds at any
/// time.
pub proof fn law_block_holds(
    blocked: Map<u64, BlockedState>,
    peer: u64,
    timeout: Option<u64>,
    now: u64,
    at: u64,
)
    requires
        timeout is Some ==> at < deadline_after(now, timeout->0),
    ensures
        !allowed_at(blocked.insert(peer, block_of(timeout, now)), peer, at),
        blocked_after_allowed(blocked.insert(peer, block_of(timeout, now)), peer, at)
            == blocked.insert(peer, block_of(timeout, now)),
{
}

} // verus!
