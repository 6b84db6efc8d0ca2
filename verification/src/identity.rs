//! Peer identities and public keys.

use vstd::prelude::*;

verus! {

/// Identity of a peer: an opaque handle that is compared for equality only.
///
/// Two distinct peers never share a handle within one process.
#[derive(Clone, Copy, Debug, PartialEq, Eq, Hash, Structural)]
pub struct PeerId(pub u64);

/// Long-term public key of a peer, held in its encoded form.
#[derive(Clone, Debug, PartialEq, Eq)]
pub enum PublicKey {
    /// Ed25519 key: its 32-byte encoding.
    Ed25519(Vec<u8>),
    /// RSA key: its PKCS#1 encoding.
    Rsa(Vec<u8>),
    /// Secp256k1 key: its uncompressed encoding, the tag byte first, then X and Y.
    Secp256k1(Vec<u8>),
}

/// The kind of a public key.
#[derive(Clone, Copy, Debug, PartialEq, Eq)]
pub enum KeyKind {
    Ed25519,
    Rsa,
    Secp256k1,
}

/// What a public key is: its kind and its encoded bytes.
pub struct KeyView {
    pub kind: KeyKind,
    pub bytes: Seq<u8>,
}

impl View for PublicKey {
    type V = KeyView;

    open spec fn view(&self) -> KeyView {
        match *self {
            PublicKey::Ed25519(b) => KeyView { kind: KeyKind::Ed25519, bytes: b@ },
            PublicKey::Rsa(b) => KeyView { kind: KeyKind::Rsa, bytes: b@ },
            PublicKey::Secp256k1(b) => KeyView { kind: KeyKind::Secp256k1, bytes: b@ },
        }
    }
}

/// The bytes that `PublicKey::to_bytes` hands out for a key: those of its
/// encoding, without the leading tag byte for a Secp256k1 key.
pub open spec fn key_bytes(key: KeyView) -> Seq<u8> {
    match key.kind {
        KeyKind::Secp256k1 => if key.bytes.len() >= 1 {
            key.bytes.subrange(1, key.bytes.len() as int)
        } else {
            key.bytes
        },
        _ => key.bytes,
    }
}

/// Copies `src` into a new vector.
pub fn copy_bytes(src: &Vec<u8>) -> (out: Vec<u8>)
    ensures
        out@ == src@,
{
    copy_bytes_from(src, 0)
}

/// Copies `src` from position `start` on into a new vector; empty where
/// `start` lies beyond the end.
pub fn copy_bytes_from(src: &Vec<u8>, start: usize) -> (out: Vec<u8>)
    ensures
        start <= src@.len() ==> out@ == src@.subrange(start as int, src@.len() as int),
        start > src@.len() ==> out@ == Seq::<u8>::empty(),
{
    let mut out: Vec<u8> = Vec::new();
    let mut i: usize = start;
    if start > src.len() {
        return out;
    }
    while i < src.len()
        invariant
            start <= i <= src@.len(),
            out@ == src@.subrange(start as int, i as int),
        decreases src@.len() - i,
    {
        out.push(src[i]);
        i += 1;
        assert(out@ =~= src@.subrange(start as int, i as int));
    }
    assert(out@ =~= src@.subrange(start as int, src@.len() as int));
    out
}

impl PublicKey {
    /// Serialises the key: Ed25519 and RSA keys as they are encoded, a
    /// Secp256k1 key as the 64 bytes X||Y, the leading tag byte stripped.
    pub fn to_bytes(&self) -> (out: Vec<u8>)
        ensures
            out@ == key_bytes(self@),
    {
        match self {
            PublicKey::Ed25519(b) => {
                let out = copy_bytes(b);
                out
            },
            PublicKey::Rsa(b) => {
                let out = copy_bytes(b);
                out
            },
            PublicKey::Secp256k1(b) => {
                if b.len() >= 1 {
                    let out = copy_bytes_from(b, 1);
                    out
                } else {
                    let out = copy_bytes(b);
                    out
                }
            },
        }
    }

    /// The kind of the key.
    pub fn kind(&self) -> (k: KeyKind)
        ensures
            k == self@.kind,
    {
        match self {
            PublicKey::Ed25519(_) => KeyKind::Ed25519,
            PublicKey::Rsa(_) => KeyKind::Rsa,
            PublicKey::Secp256k1(_) => KeyKind::Secp256k1,
        }
    }

    /// A copy of the key: the same kind and the same bytes.
    pub fn duplicate(&self) -> (out: PublicKey)
        ensures
            out@ == self@,
    {
        match self {
            PublicKey::Ed25519(b) => PublicKey::Ed25519(copy_bytes(b)),
            PublicKey::Rsa(b) => PublicKey::Rsa(copy_bytes(b)),
            PublicKey::Secp256k1(b) => PublicKey::Secp256k1(copy_bytes(b)),
        }
    }
}

} // verus!
