//! Key, signature and error types, and the trusted boundary to the
//! cryptographic primitives.
//!
//! Each key or signature of this crate holds its raw bytes as a plain value
//! with a fixed-length invariant; the curve operations themselves are done by
//! the `ed25519-dalek` and `x25519-dalek` crates behind narrow trusted
//! wrappers.  What such an operation returns is named by an uninterpreted
//! spec function of the inputs alone, so contracts downstream can speak of it
//! exactly.

use vstd::prelude::*;

verus! {

/// Byte length of an Ed25519 or X25519 private or public key.
pub const KEY_LENGTH: usize = 32;

/// Byte length of an Ed25519 signature.
pub const SIGNATURE_LENGTH: usize = 64;

/// The Ed25519 signature over `message` under the private key `key`:
/// a function of the two byte strings alone (RFC 8032 signing is
/// deterministic, no randomized nonce).
pub uninterp spec fn ed25519_signature_of(key: Seq<u8>, message: Seq<u8>) -> Seq<u8>;

/// The Ed25519 public key derived from the private key bytes `key`.
pub uninterp spec fn ed25519_public_of(key: Seq<u8>) -> Seq<u8>;

/// The X25519 public key derived from the private key bytes `key`.
pub uninterp spec fn x25519_public_of(key: Seq<u8>) -> Seq<u8>;

/// The 32 bytes drawn from the standard seeded generator started at
/// `seed`: a function of the seed alone, the same in every process.
pub uninterp spec fn std_rng_bytes_of(seed: Seq<u8>) -> Seq<u8>;

/// Relies on `ed25519_dalek::SigningKey::from_bytes` and
/// `ed25519_dalek::Signer::sign`: RFC 8032 signing is deterministic, so the
/// signature is a function of the key and message bytes alone, and is 64
/// bytes long.
#[verifier::external_body]
pub(crate) fn ed25519_sign_bytes(key: &[u8], message: &[u8]) -> (r: Vec<u8>)
    requires
        key@.len() == KEY_LENGTH,
    ensures
        r@ == ed25519_signature_of(key@, message@),
        r@.len() == SIGNATURE_LENGTH,
{
    let arr: [u8; 32] = key.try_into().unwrap();
    let sk = ed25519_dalek::SigningKey::from_bytes(&arr);
    let sig: ed25519_dalek::Signature = ed25519_dalek::Signer::sign(&sk, message);
    sig.to_bytes().to_vec()
}

/// Relies on `ed25519_dalek::SigningKey::verifying_key`: the public key is a
/// function of the private key bytes alone, and is 32 bytes long.
#[verifier::external_body]
pub(crate) fn ed25519_public_bytes(key: &[u8]) -> (r: Vec<u8>)
    requires
        key@.len() == KEY_LENGTH,
    ensures
        r@ == ed25519_public_of(key@),
        r@.len() == KEY_LENGTH,
{
    let arr: [u8; 32] = key.try_into().unwrap();
    ed25519_dalek::SigningKey::from_bytes(&arr).verifying_key().to_bytes().to_vec()
}

/// Relies on `x25519_dalek::PublicKey::from(&StaticSecret)`: the public key
/// is a function of the private key bytes alone, and is 32 bytes long.
#[verifier::external_body]
pub(crate) fn x25519_public_bytes(key: &[u8]) -> (r: Vec<u8>)
    requires
        key@.len() == KEY_LENGTH,
    ensures
        r@ == x25519_public_of(key@),
        r@.len() == KEY_LENGTH,
{
    let arr: [u8; 32] = key.try_into().unwrap();
    let secret = x25519_dalek::StaticSecret::from(arr);
    x25519_dalek::PublicKey::from(&secret).to_bytes().to_vec()
}

/// Relies on `rand::rngs::OsRng`: of a random draw nothing is assumed but
/// its length.
#[verifier::external_body]
pub(crate) fn os_random_bytes32() -> (r: Vec<u8>)
    ensures
        r@.len() == KEY_LENGTH,
{
    let mut bytes = [0u8; 32];
    rand::RngCore::fill_bytes(&mut rand::rngs::OsRng, &mut bytes);
    bytes.to_vec()
}

/// Relies on `rand::rngs::StdRng::from_seed` and `fill_bytes`: the
/// generator is a fixed deterministic stream cipher, so the drawn bytes
/// are a function of the seed alone, and 32 of them are drawn.
#[verifier::external_body]
pub(crate) fn seeded_random_bytes32(seed: &[u8; 32]) -> (r: Vec<u8>)
    ensures
        r@ == std_rng_bytes_of(seed@),
        r@.len() == KEY_LENGTH,
{
    let mut rng: rand::rngs::StdRng = rand::SeedableRng::from_seed(*seed);
    let mut bytes = [0u8; 32];
    rand::RngCore::fill_bytes(&mut rng, &mut bytes);
    bytes.to_vec()
}

/// Copies a byte vector.
pub(crate) fn copy_bytes(v: &Vec<u8>) -> (r: Vec<u8>)
    ensures
        r@ == v@,
{
    let mut r: Vec<u8> = Vec::new();
    let mut i: usize = 0;
    while i < v.len()
        invariant
            i <= v@.len(),
            r@ =~= v@.take(i as int),
        decreases v@.len() - i,
    {
        r.push(v[i]);
        i = i + 1;
    }
    proof {
        assert(r@ =~= v@);
    }
    r
}


/// Appends all of `bytes` to `out`.
pub(crate) fn push_all(out: &mut Vec<u8>, bytes: &[u8])
    ensures
        final(out)@ == old(out)@ + bytes@,
{
    let mut i: usize = 0;
    while i < bytes.len()
        invariant
            i <= bytes@.len(),
            out@ =~= old(out)@ + bytes@.take(i as int),
        decreases bytes@.len() - i,
    {
        out.push(bytes[i]);
        proof {
            assert(out@ =~= old(out)@ + bytes@.take(i + 1));
        }
        i = i + 1;
    }
    proof {
        assert(out@ =~= old(out)@ + bytes@);
    }
}

/// A message that can be signed: it has a canonical, unambiguous byte
/// serialization under a domain-separating tag, so that signatures over
/// structurally different message types can never collide.
pub trait CryptoHash {
    /// The canonical byte form of the message.
    spec fn canonical_bytes(&self) -> Seq<u8>;

    /// Computes the canonical byte form.
    fn signing_bytes(&self) -> (r: Vec<u8>)
        ensures
            r@ == self.canonical_bytes(),
    ;
}

/// An error reported by the signing primitive on malformed input.  Treated
/// as a programmer or data error, not a recoverable runtime condition.
#[derive(Clone, Copy, Debug, PartialEq, Eq, Structural)]
pub enum CryptoMaterialError {
    /// The message could not be put into its canonical byte form.
    SerializationError,
    /// The key material failed validation.
    ValidationError,
}

/// An Ed25519 private signing key, held as its 32 raw bytes.
#[derive(Debug)]
pub struct Ed25519PrivateKey {
    bytes: Vec<u8>,
}

impl View for Ed25519PrivateKey {
    type V = Seq<u8>;

    closed spec fn view(&self) -> Seq<u8> {
        self.bytes@
    }
}

impl Ed25519PrivateKey {
    /// The key holds exactly `KEY_LENGTH` bytes.
    pub open spec fn wf(&self) -> bool {
        self@.len() == KEY_LENGTH
    }

    /// Builds a key from raw bytes; rejects any length but `KEY_LENGTH`.
    pub fn from_bytes(bytes: Vec<u8>) -> (r: Option<Ed25519PrivateKey>)
        ensures
            bytes@.len() == KEY_LENGTH ==> (r matches Some(k) && k@ == bytes@ && k.wf()),
            bytes@.len() != KEY_LENGTH ==> r is None,
    {
        if bytes.len() == KEY_LENGTH {
            Some(Ed25519PrivateKey { bytes })
        } else {
            None
        }
    }

    /// The raw key bytes.
    pub fn to_bytes(&self) -> (r: Vec<u8>)
        ensures
            r@ == self@,
    {
        copy_bytes(&self.bytes)
    }

    /// The public counterpart of this key.
    pub fn public_key(&self) -> (r: Ed25519PublicKey)
        requires
            self.wf(),
        ensures
            r@ == ed25519_public_of(self@),
            r.wf(),
    {
        let bytes = ed25519_public_bytes(self.bytes.as_slice());
        Ed25519PublicKey { bytes }
    }

    /// Signs `message` with this key.  The signature is a function of the
    /// key and message bytes alone.
    pub fn sign_bytes(&self, message: &Vec<u8>) -> (r: Ed25519Signature)
        requires
            self.wf(),
        ensures
            r@ == ed25519_signature_of(self@, message@),
            r.wf(),
    {
        let bytes = ed25519_sign_bytes(self.bytes.as_slice(), message.as_slice());
        Ed25519Signature { bytes }
    }
}

/// An Ed25519 public key, held as its 32 raw bytes.
#[derive(Debug)]
pub struct Ed25519PublicKey {
    bytes: Vec<u8>,
}

impl View for Ed25519PublicKey {
    type V = Seq<u8>;

    closed spec fn view(&self) -> Seq<u8> {
        self.bytes@
    }
}

impl Ed25519PublicKey {
    /// The key holds exactly `KEY_LENGTH` bytes.
    pub open spec fn wf(&self) -> bool {
        self@.len() == KEY_LENGTH
    }

    /// The raw key bytes.
    pub fn to_bytes(&self) -> (r: Vec<u8>)
        ensures
            r@ == self@,
    {
        copy_bytes(&self.bytes)
    }
}

/// An Ed25519 signature, held as its 64 raw bytes.
#[derive(Debug)]
pub struct Ed25519Signature {
    bytes: Vec<u8>,
}

impl View for Ed25519Signature {
    type V = Seq<u8>;

    closed spec fn view(&self) -> Seq<u8> {
        self.bytes@
    }
}

impl Ed25519Signature {
    /// The signature holds exactly `SIGNATURE_LENGTH` bytes.
    pub open spec fn wf(&self) -> bool {
        self@.len() == SIGNATURE_LENGTH
    }

    /// The raw signature bytes.
    pub fn to_bytes(&self) -> (r: Vec<u8>)
        ensures
            r@ == self@,
    {
        copy_bytes(&self.bytes)
    }
}

/// An X25519 private key backing a node's network identity, held as its 32
/// raw bytes.
#[derive(Debug)]
pub struct X25519PrivateKey {
    bytes: Vec<u8>,
}

impl View for X25519PrivateKey {
    type V = Seq<u8>;

    closed spec fn view(&self) -> Seq<u8> {
        self.bytes@
    }
}

impl X25519PrivateKey {
    /// The key holds exactly `KEY_LENGTH` bytes.
    pub open spec fn wf(&self) -> bool {
        self@.len() == KEY_LENGTH
    }

    /// Builds a key from raw bytes; rejects any length but `KEY_LENGTH`.
    pub fn from_bytes(bytes: Vec<u8>) -> (r: Option<X25519PrivateKey>)
        ensures
            bytes@.len() == KEY_LENGTH ==> (r matches Some(k) && k@ == bytes@ && k.wf()),
            bytes@.len() != KEY_LENGTH ==> r is None,
    {
        if bytes.len() == KEY_LENGTH {
            Some(X25519PrivateKey { bytes })
        } else {
            None
        }
    }

    /// The raw key bytes, as persisted by the raw key file format.
    pub fn to_bytes(&self) -> (r: Vec<u8>)
        ensures
            r@ == self@,
    {
        copy_bytes(&self.bytes)
    }

    /// The public counterpart of this key.
    pub fn public_key(&self) -> (r: X25519PublicKey)
        requires
            self.wf(),
        ensures
            r@ == x25519_public_of(self@),
            r.wf(),
    {
        let bytes = x25519_public_bytes(self.bytes.as_slice());
        X25519PublicKey { bytes }
    }
}

/// An X25519 public key, held as its 32 raw bytes.
#[derive(Debug)]
pub struct X25519PublicKey {
    bytes: Vec<u8>,
}

impl View for X25519PublicKey {
    type V = Seq<u8>;

    closed spec fn view(&self) -> Seq<u8> {
        self.bytes@
    }
}

impl X25519PublicKey {
    /// The key holds exactly `KEY_LENGTH` bytes.
    pub open spec fn wf(&self) -> bool {
        self@.len() == KEY_LENGTH
    }

    /// The raw key bytes.
    pub fn to_bytes(&self) -> (r: Vec<u8>)
        ensures
            r@ == self@,
    {
        copy_bytes(&self.bytes)
    }
}

} // verus!
