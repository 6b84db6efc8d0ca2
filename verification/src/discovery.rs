//! Discovery of peers: the addresses that the user gave for a peer, and the
//! pace of the random identity queries.

use vstd::prelude::*;
use crate::address::Multiaddr;
use crate::clock::{deadline_after, instant_after};
use crate::identity::PeerId;

verus! {

/// Time to the second random query, in milliseconds.
pub const FIRST_QUERY_PAUSE: u64 = 1000;

/// Longest time between two random queries, in milliseconds.
pub const LONGEST_QUERY_PAUSE: u64 = 60000;

/// At most this many listen addresses are taken from what a node says of
/// itself.
pub const MAX_REPORTED_ADDRESSES: usize = 30;

/// An address that the user gave for a peer.
#[derive(Clone, Copy, Debug, PartialEq, Eq)]
pub struct KnownAddress {
    pub peer: PeerId,
    pub address: Multiaddr,
}

/// The abstract state of the discovery behaviour.
pub struct DiscoveryModel {
    /// The addresses that the user gave, in the order of giving.
    pub user_defined: Seq<KnownAddress>,
    /// When the next random query is due.
    pub next_query: u64,
    /// The pause that follows the next random query.
    pub pause: u64,
    /// The identity of the local node.
    pub local_peer_id: PeerId,
}

impl DiscoveryModel {
    /// No pair of peer and address occurs twice, and the pause lies between
    /// the first and the longest.
    pub open spec fn wf(self) -> bool {
        &&& FIRST_QUERY_PAUSE <= self.pause <= LONGEST_QUERY_PAUSE
        &&& forall|i: int, j: int|
            0 <= i < j < self.user_defined.len() ==> self.user_defined[i] != self.user_defined[j]
    }
}

/// The addresses among the first `n` entries that were given for `peer`, in
/// the order of giving.
pub open spec fn addresses_for(list: Seq<KnownAddress>, n: int, peer: PeerId) -> Seq<Multiaddr>
    decreases n,
{
    if n <= 0 {
        Seq::empty()
    } else if list[n - 1].peer == peer {
        addresses_for(list, n - 1, peer).push(list[n - 1].address)
    } else {
        addresses_for(list, n - 1, peer)
    }
}

/// The pause after `pause`: twice as long, held at the longest pause.
pub open spec fn next_pause(pause: u64) -> u64 {
    if pause * 2 > LONGEST_QUERY_PAUSE {
        LONGEST_QUERY_PAUSE
    } else {
        (pause * 2) as u64
    }
}

/// The discovery behaviour after a poll at `now`: where the query is due the
/// next one is set a pause later and the pause doubles.
pub open spec fn discovery_after_poll(m: DiscoveryModel, now: u64) -> DiscoveryModel {
    if now >= m.next_query {
        DiscoveryModel {
            user_defined: m.user_defined,
            next_query: deadline_after(now, m.pause),
            pause: next_pause(m.pause),
            local_peer_id: m.local_peer_id,
        }
    } else {
        m
    }
}

/// The first `MAX_REPORTED_ADDRESSES` of the addresses, or all where there
/// are fewer.
pub open spec fn reported_addresses(addrs: Seq<Multiaddr>) -> Seq<Multiaddr> {
    if addrs.len() > MAX_REPORTED_ADDRESSES {
        addrs.subrange(0, MAX_REPORTED_ADDRESSES as int)
    } else {
        addrs
    }
}

/// Cuts the listen addresses that a node reports of itself down to the first
/// `MAX_REPORTED_ADDRESSES`.
pub fn limit_reported_addresses(listen_addrs: Vec<Multiaddr>) -> (kept: Vec<Multiaddr>)
    ensures
        kept@ == reported_addresses(listen_addrs@),
{
    let mut kept = listen_addrs;
    if kept.len() > MAX_REPORTED_ADDRESSES {
        kept.truncate(MAX_REPORTED_ADDRESSES);
    }
    kept
}

/// Discovers the nodes of the network.
#[derive(Debug)]
pub struct DiscoveryBehaviour {
    user_defined: Vec<KnownAddress>,
    next_kad_random_query: u64,
    duration_to_next_kad: u64,
    local_peer_id: PeerId,
}

impl View for DiscoveryBehaviour {
    type V = DiscoveryModel;

    closed spec fn view(&self) -> DiscoveryModel {
        DiscoveryModel {
            user_defined: self.user_defined@,
            next_query: self.next_kad_random_query,
            pause: self.duration_to_next_kad,
            local_peer_id: self.local_peer_id,
        }
    }
}

impl DiscoveryBehaviour {
    /// The invariant of the behaviour.
    pub open spec fn wf(&self) -> bool {
        self@.wf()
    }

    /// A behaviour made at `now`: it knows no address, its first query is due
    /// at once and the second a second later.
    pub fn new(local_peer_id: PeerId, now: u64) -> (d: DiscoveryBehaviour)
        ensures
            d.wf(),
            d@ == (DiscoveryModel {
                user_defined: Seq::empty(),
                next_query: now,
                pause: FIRST_QUERY_PAUSE,
                local_peer_id,
            }),
    {
        DiscoveryBehaviour {
            user_defined: Vec::new(),
            next_kad_random_query: now,
            duration_to_next_kad: FIRST_QUERY_PAUSE,
            local_peer_id,
        }
    }

    /// True where the address was given for the peer.
    pub fn knows(&self, peer_id: PeerId, addr: &Multiaddr) -> (r: bool)
        ensures
            r == self@.user_defined.contains(KnownAddress { peer: peer_id, address: *addr }),
    {
        let mut i: usize = 0;
        while i < self.user_defined.len()
            invariant
                i <= self.user_defined@.len(),
                forall|k: int|
                    0 <= k < i ==> self.user_defined@[k] != (KnownAddress {
                        peer: peer_id,
                        address: *addr,
                    }),
            decreases self.user_defined@.len() - i,
        {
            let e = self.user_defined[i];
            if e.peer.0 == peer_id.0 && e.address.same(addr) {
                return true;
            }
            i += 1;
        }
        false
    }

    /// Adds an address for a peer that never expires. A pair that is already
    /// there is not added again.
    pub fn add_known_address(&mut self, peer_id: PeerId, addr: Multiaddr)
        requires
            old(self).wf(),
        ensures
            final(self).wf(),
            final(self)@ == (DiscoveryModel {
                user_defined: if old(self)@.user_defined.contains(
                    KnownAddress { peer: peer_id, address: addr },
                ) {
                    old(self)@.user_defined
                } else {
                    old(self)@.user_defined.push(KnownAddress { peer: peer_id, address: addr })
                },
                ..old(self)@
            }),
    {
        if !self.knows(peer_id, &addr) {
            self.user_defined.push(KnownAddress { peer: peer_id, address: addr });
        }
    }

    /// The addresses of a peer: those that the user gave for it, in the order
    /// of giving, then those that the discovery subsystem knows.
    pub fn addresses_of_peer(&self, peer_id: &PeerId, discovered: Vec<Multiaddr>) -> (list: Vec<
        Multiaddr,
    >)
        ensures
            list@ == addresses_for(
                self@.user_defined,
                self@.user_defined.len() as int,
                *peer_id,
            ) + discovered@,
    {
        let mut list: Vec<Multiaddr> = Vec::new();
        let mut i: usize = 0;
        while i < self.user_defined.len()
            invariant
                i <= self.user_defined@.len(),
                list@ == addresses_for(self.user_defined@, i as int, *peer_id),
            decreases self.user_defined@.len() - i,
        {
            let e = self.user_defined[i];
            if e.peer.0 == peer_id.0 {
                list.push(e.address);
            }
            i += 1;
        }
        let mut more = discovered;
        list.append(&mut more);
        list
    }

    /// Looks at the query timer at `now` and says whether a random identity
    /// query is to be launched.
    pub fn poll_at(&mut self, now: u64) -> (launch: bool)
        requires
            old(self).wf(),
        ensures
            final(self).wf(),
            launch == (now >= old(self)@.next_query),
            final(self)@ == discovery_after_poll(old(self)@, now),
    {
        if now >= self.next_kad_random_query {
            self.next_kad_random_query = instant_after(now, self.duration_to_next_kad);
            let doubled: u64 = self.duration_to_next_kad * 2;
            self.duration_to_next_kad = if doubled > LONGEST_QUERY_PAUSE {
                LONGEST_QUERY_PAUSE
            } else {
                doubled
            };
            assert(self@.user_defined == old(self)@.user_defined);
            assert(FIRST_QUERY_PAUSE <= self@.pause <= LONGEST_QUERY_PAUSE);
            true
        } else {
            false
        }
    }
}

/// The pause between random queries never shrinks and never exceeds the
/// longest pause.
pub proof fn law_pause_doubles_to_limit(pause: u64)
    requires
        FIRST_QUERY_PAUSE <= pause <= LONGEST_QUERY_PAUSE,
    ensures
        pause <= next_pause(pause) <= LONGEST_QUERY_PAUSE,
        pause * 2 <= LONGEST_QUERY_PAUSE ==> next_pause(pause) == pause * 2,
{
}

} // verus!
