//! The hash map that holds the state of each peer, keyed by the handle of
//! the peer and hashed with the FNV hasher.

use vstd::prelude::*;
use std::collections::HashMap;
use std::hash::BuildHasherDefault;
use fnv::FnvHasher;
use crate::custom_proto::state::PeerState;

verus! {

/// The hasher `fnv::FnvHasher`.
#[verifier::external_type_specification]
#[verifier::external_body]
pub struct ExFnvHasher(FnvHasher);

/// The builder `std::hash::BuildHasherDefault`, which makes a hasher in its
/// default state for every key.
#[verifier::reject_recursive_types(H)]
#[verifier::external_type_specification]
#[verifier::external_body]
pub struct ExBuildHasherDefault<H>(BuildHasherDefault<H>);

/// A hash map from the handle of a peer to its state, hashed with FNV.
pub type StateIndex = HashMap<u64, PeerState, BuildHasherDefault<FnvHasher>>;

/// The map that holds no key.
pub open spec fn no_states() -> Map<u64, PeerState> {
    Map::empty()
}

/// Calls `HashMap::default` for the FNV hasher: the new map holds no key.
#[verifier::external_body]
pub(crate) fn index_new() -> (index: StateIndex)
    ensures
        index@ == no_states(),
{
    HashMap::default()
}

/// Calls `HashMap::get`: the value stored for the key, `None` where the map
/// does not hold the key. The FNV hasher computes its hash from the bytes of
/// the key alone, so a key is found again under the hash it was stored with.
#[verifier::external_body]
pub(crate) fn index_get(m: &StateIndex, key: u64) -> (r: Option<PeerState>)
    ensures
        r == (if m@.contains_key(key) {
            Some(m@[key])
        } else {
            None
        }),
{
    m.get(&key).copied()
}

/// Calls `HashMap::insert`: the map holds the value for the key afterwards,
/// in place of any that it held, and every other key as before.
#[verifier::external_body]
pub(crate) fn index_insert(m: &mut StateIndex, key: u64, value: PeerState)
    ensures
        final(m)@ == old(m)@.insert(key, value),
{
    m.insert(key, value);
}

/// Calls `HashMap::remove`: the map does not hold the key afterwards, and
/// every other key as before.
#[verifier::external_body]
pub(crate) fn index_remove(m: &mut StateIndex, key: u64)
    ensures
        final(m)@ == old(m)@.remove(key),
{
    m.remove(&key);
}

} // verus!
