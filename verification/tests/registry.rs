use golem_net::clock::{instant_after, instant_max, millis_to_instant, Clock};
use golem_net::identity::{KeyKind, PeerId, PublicKey};
use golem_net::peers::manager::PeerManager;

#[test]
fn key_is_stored_replaced_and_removed() {
    let mut m = PeerManager::new();
    let peer = PeerId(7);
    assert_eq!(m.get_key(&peer), None);
    m.add_key(&peer, &PublicKey::Ed25519(vec![1, 2, 3]));
    assert_eq!(m.get_key(&peer), Some(PublicKey::Ed25519(vec![1, 2, 3])));
    m.add_key(&peer, &PublicKey::Rsa(vec![9]));
    assert_eq!(m.get_key(&peer), Some(PublicKey::Rsa(vec![9])));
    assert_eq!(m.get_key(&PeerId(8)), None);
    assert_eq!(m.remove_key(&peer), Some(PublicKey::Rsa(vec![9])));
    assert_eq!(m.get_key(&peer), None);
    assert_eq!(m.remove_key(&peer), None);
}

#[test]
fn unknown_peer_is_allowed() {
    let mut m = PeerManager::new();
    assert!(m.allowed_at(&PeerId(1), 0));
    assert!(m.allowed(&PeerId(1)));
}

#[test]
fn timeout_block_expires_and_entry_goes() {
    let mut m = PeerManager::new();
    let peer = PeerId(3);
    m.block_at(&peer, Some(100), 1_000);
    assert!(!m.allowed_at(&peer, 1_000));
    assert!(!m.allowed_at(&peer, 1_099));
    assert!(m.allowed_at(&peer, 1_101));
    // The entry is gone: there is nothing left to lift.
    assert!(!m.unblock(&peer));
}

#[test]
fn timeout_block_is_over_at_its_deadline() {
    let mut m = PeerManager::new();
    let peer = PeerId(3);
    m.block_at(&peer, Some(100), 1_000);
    assert!(m.allowed_at(&peer, 1_100));
}

#[test]
fn indefinite_block_holds_until_unblocked() {
    let mut m = PeerManager::new();
    let peer = PeerId(4);
    m.block_at(&peer, None, 5);
    assert!(!m.allowed_at(&peer, 5));
    assert!(!m.allowed_at(&peer, u64::MAX));
    assert!(m.unblock(&peer));
    assert!(m.allowed_at(&peer, 5));
    assert!(!m.unblock(&peer));
}

#[test]
fn block_leaves_other_peers_and_keys_alone() {
    let mut m = PeerManager::new();
    m.add_key(&PeerId(1), &PublicKey::Ed25519(vec![1]));
    m.block_at(&PeerId(1), None, 0);
    assert!(m.allowed_at(&PeerId(2), 0));
    assert_eq!(m.get_key(&PeerId(1)), Some(PublicKey::Ed25519(vec![1])));
}

#[test]
fn block_with_the_clock_blocks_now() {
    let mut m = PeerManager::new();
    m.block(&PeerId(1), Some(60_000));
    assert!(!m.allowed(&PeerId(1)));
    m.block(&PeerId(2), None);
    assert!(!m.allowed(&PeerId(2)));
}

#[test]
fn deadline_saturates_at_the_end_of_time() {
    let mut m = PeerManager::new();
    m.block_at(&PeerId(1), Some(u64::MAX), 10);
    assert!(!m.allowed_at(&PeerId(1), u64::MAX - 1));
    assert!(m.allowed_at(&PeerId(1), u64::MAX));
}

#[test]
fn key_bytes_strip_the_secp256k1_tag() {
    let mut uncompressed = vec![4u8];
    uncompressed.extend_from_slice(&[0x11u8; 32]);
    uncompressed.extend_from_slice(&[0x22u8; 32]);
    let key = PublicKey::Secp256k1(uncompressed.clone());
    let bytes = key.to_bytes();
    assert_eq!(bytes.len(), 64);
    assert_eq!(&bytes[..], &uncompressed[1..]);
    assert_eq!(key.kind(), KeyKind::Secp256k1);
    assert_eq!(PublicKey::Ed25519(vec![5u8; 32]).to_bytes(), vec![5u8; 32]);
    assert_eq!(PublicKey::Rsa(vec![1, 2]).to_bytes(), vec![1u8, 2]);
    assert_eq!(PublicKey::Secp256k1(vec![]).to_bytes(), Vec::<u8>::new());
    assert_eq!(key.duplicate(), key);
}

#[test]
fn count_of_milliseconds_saturates_as_a_point_in_time() {
    assert_eq!(millis_to_instant(0), 0);
    assert_eq!(millis_to_instant(1_234), 1_234);
    assert_eq!(millis_to_instant(u64::MAX as u128), u64::MAX);
    assert_eq!(millis_to_instant(u64::MAX as u128 + 1), u64::MAX);
    assert_eq!(millis_to_instant(u128::MAX), u64::MAX);
}

#[test]
fn deadlines_add_and_saturate() {
    assert_eq!(instant_after(100, 5_000), 5_100);
    assert_eq!(instant_after(u64::MAX - 1, 1), u64::MAX);
    assert_eq!(instant_after(u64::MAX - 1, 2), u64::MAX);
    assert_eq!(instant_max(3, 7), 7);
    assert_eq!(instant_max(7, 3), 7);
}

#[test]
fn clock_does_not_run_backwards() {
    let clock = Clock::new();
    let a = clock.now();
    let b = clock.now();
    assert!(a <= b);
    // A clock that was just made has not counted a minute yet.
    assert!(b < 60_000);
}
