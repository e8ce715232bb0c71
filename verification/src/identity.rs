//! Node identity: the key material, the public key and the peer identifier
//! that follow from a one-byte seed.

use crate::bytes::{bytes_equal, slice_to_vec};
use libp2p::identity::{DecodingError, Keypair, PublicKey};
use vstd::prelude::*;

verus! {

/// `libp2p::identity::DecodingError`, carried through as an opaque value.
#[verifier::external_type_specification]
#[verifier::external_body]
pub struct ExDecodingError(DecodingError);

/// The protobuf encoding of the Ed25519 public key that belongs to the given
/// secret key bytes.
pub uninterp spec fn ed25519_public_key(secret: Seq<u8>) -> Seq<u8>;

/// The bytes of the peer identifier of a protobuf-encoded public key, or
/// `None` where the bytes do not decode to a public key.
pub uninterp spec fn key_peer_id(key: Seq<u8>) -> Option<Seq<u8>>;

/// Calls `Keypair::ed25519_from_bytes` and encodes the public half of the
/// keypair with `PublicKey::encode_protobuf`.
///
/// Trusted: the call succeeds exactly on 32 bytes, the key it yields depends
/// on those bytes alone, and the encoding written here is one that
/// `PublicKey::try_decode_protobuf` reads back.
#[verifier::external_body]
fn keypair_public_key(secret: &[u8]) -> (r: Result<Vec<u8>, DecodingError>)
    ensures
        r is Ok <==> secret@.len() == 32,
        r is Ok ==> r->Ok_0@ == ed25519_public_key(secret@),
        r is Ok ==> key_peer_id(r->Ok_0@) is Some,
{
    match Keypair::ed25519_from_bytes(secret.to_vec()) {
        Ok(keypair) => Ok(keypair.public().encode_protobuf()),
        Err(e) => Err(e),
    }
}

/// Calls `PublicKey::try_decode_protobuf` and, on a key, `PublicKey::to_peer_id`.
///
/// Trusted: whether the bytes decode, and the identifier of the decoded key,
/// depend on the bytes alone.
#[verifier::external_body]
fn public_key_peer_id(key: &[u8]) -> (r: Result<Vec<u8>, DecodingError>)
    ensures
        match r {
            Ok(id) => key_peer_id(key@) == Some(id@),
            Err(_) => key_peer_id(key@) is None,
        },
{
    match PublicKey::try_decode_protobuf(key) {
        Ok(public) => Ok(public.to_peer_id().to_bytes()),
        Err(e) => Err(e),
    }
}

/// Identifier of a peer: the multihash bytes of its public key.
#[derive(Debug)]
pub struct PeerId {
    bytes: Vec<u8>,
}

impl View for PeerId {
    type V = Seq<u8>;

    closed spec fn view(&self) -> Seq<u8> {
        self.bytes@
    }
}

impl Clone for PeerId {
    fn clone(&self) -> (copy: PeerId)
        ensures
            copy@ == self@,
    {
        PeerId { bytes: self.bytes.clone() }
    }
}

impl PeerId {
    /// Wraps the bytes of an identifier.
    pub fn from_bytes(bytes: Vec<u8>) -> (id: PeerId)
        ensures
            id@ == bytes@,
    {
        PeerId { bytes }
    }

    /// The bytes of the identifier.
    pub fn to_bytes(&self) -> (bytes: Vec<u8>)
        ensures
            bytes@ == self@,
    {
        self.bytes.clone()
    }

    /// Whether two identifiers name the same peer.
    pub fn same(&self, other: &PeerId) -> (b: bool)
        ensures
            b == (self@ == other@),
    {
        bytes_equal(self.bytes.as_slice(), other.bytes.as_slice())
    }

    /// The identifier of the peer that holds the given protobuf-encoded
    /// public key, or `None` where the bytes are no public key.
    pub fn of_public_key(key: &[u8]) -> (id: Option<PeerId>)
        ensures
            match id {
                Some(id) => key_peer_id(key@) == Some(id@),
                None => key_peer_id(key@) is None,
            },
    {
        match public_key_peer_id(key) {
            Ok(bytes) => Some(PeerId { bytes }),
            Err(_) => None,
        }
    }
}

/// Why an identity could not be derived.
#[derive(Clone, Copy, Debug, PartialEq, Eq, Structural)]
pub enum IdentityError {
    /// The key material does not have the length of a secret key.
    InvalidSeedLength,
}

/// What a node identity is, as plain values.
pub struct IdentityView {
    pub secret: Seq<u8>,
    pub public_key: Seq<u8>,
    pub peer_id: Seq<u8>,
}

/// The identity that belongs to the given secret key material.
pub open spec fn identity_of(secret: Seq<u8>) -> IdentityView {
    IdentityView {
        secret,
        public_key: ed25519_public_key(secret),
        peer_id: key_peer_id(ed25519_public_key(secret)).unwrap(),
    }
}

/// The secret key material for a seed: the seed, then zero bytes.
pub open spec fn seed_material(seed: u8) -> Seq<u8> {
    Seq::new(32, |i: int| if i == 0 { seed } else { 0u8 })
}

/// The keypair of a node and the peer identifier derived from it.
#[derive(Debug)]
pub struct NodeIdentity {
    secret: Vec<u8>,
    public_key: Vec<u8>,
    peer_id: PeerId,
}

impl View for NodeIdentity {
    type V = IdentityView;

    closed spec fn view(&self) -> IdentityView {
        IdentityView {
            secret: self.secret@,
            public_key: self.public_key@,
            peer_id: self.peer_id@,
        }
    }
}

impl Clone for NodeIdentity {
    fn clone(&self) -> (copy: NodeIdentity)
        ensures
            copy@ == self@,
    {
        proof {
            use_type_invariant(self);
        }
        NodeIdentity {
            secret: self.secret.clone(),
            public_key: self.public_key.clone(),
            peer_id: self.peer_id.clone(),
        }
    }
}

impl NodeIdentity {
    #[verifier::type_invariant]
    spec fn consistent(self) -> bool {
        &&& self.secret@.len() == 32
        &&& self@ == identity_of(self.secret@)
        &&& key_peer_id(self.public_key@) == Some(self.peer_id@)
    }

    /// The secret key bytes, from which the rest of the identity follows.
    pub fn secret_bytes(&self) -> (bytes: Vec<u8>)
        ensures
            bytes@ == self@.secret,
            bytes@.len() == 32,
            self@ == identity_of(self@.secret),
    {
        proof {
            use_type_invariant(self);
        }
        self.secret.clone()
    }

    /// The protobuf-encoded public key, which is the one of the secret key.
    pub fn public_key(&self) -> (bytes: Vec<u8>)
        ensures
            bytes@ == self@.public_key,
            bytes@ == ed25519_public_key(self@.secret),
    {
        proof {
            use_type_invariant(self);
        }
        self.public_key.clone()
    }

    /// The peer identifier, which is the one of the public key.
    pub fn peer_id(&self) -> (id: PeerId)
        ensures
            id@ == self@.peer_id,
            key_peer_id(self@.public_key) == Some(id@),
    {
        proof {
            use_type_invariant(self);
        }
        self.peer_id.clone()
    }
}

/// Expands a one-byte seed into secret key material.
pub fn expand_seed(seed: u8) -> (bytes: [u8; 32])
    ensures
        bytes@ == seed_material(seed),
{
    let mut bytes = [0u8; 32];
    bytes[0] = seed;
    bytes
}

/// Derives the identity that belongs to secret key material.
///
/// Fails with `InvalidSeedLength` exactly when the material is not 32 bytes
/// long.
pub fn derive_from_material(material: &[u8]) -> (r: Result<NodeIdentity, IdentityError>)
    ensures
        match r {
            Ok(identity) => material@.len() == 32 && identity@ == identity_of(material@)
                && key_peer_id(identity@.public_key) == Some(identity@.peer_id),
            Err(e) => material@.len() != 32 && e == IdentityError::InvalidSeedLength,
        },
{
    match keypair_public_key(material) {
        Ok(public_key) => {
            match public_key_peer_id(public_key.as_slice()) {
                Ok(id) => {
                    let secret = slice_to_vec(material);
                    Ok(NodeIdentity { secret, public_key, peer_id: PeerId { bytes: id } })
                },
                Err(_) => {
                    proof {
                        assert(false);
                    }
                    Err(IdentityError::InvalidSeedLength)
                },
            }
        },
        Err(_) => Err(IdentityError::InvalidSeedLength),
    }
}

/// Derives the identity of the node with the given seed.
///
/// The same seed always gives the same identity; the fixed length of the
/// material makes the error unreachable.
pub fn derive(seed: u8) -> (r: Result<NodeIdentity, IdentityError>)
    ensures
        r is Ok,
        r->Ok_0@ == identity_of(seed_material(seed)),
        key_peer_id(r->Ok_0@.public_key) == Some(r->Ok_0@.peer_id),
{
    let material = expand_seed(seed);
    derive_from_material(material.as_slice())
}

/// Two identities derived from one seed are the same identity.
pub proof fn lemma_derive_deterministic(seed: u8, first: NodeIdentity, second: NodeIdentity)
    requires
        first@ == identity_of(seed_material(seed)),
        second@ == identity_of(seed_material(seed)),
    ensures
        first@ == second@,
        first@.peer_id == second@.peer_id,
{
}

/// Seeds that differ give key material that differs.
pub proof fn lemma_seed_material_injective(s1: u8, s2: u8)
    requires
        s1 != s2,
    ensures
        seed_material(s1) != seed_material(s2),
{
    assert(seed_material(s1)[0] == s1);
    assert(seed_material(s2)[0] == s2);
}

} // verus!
