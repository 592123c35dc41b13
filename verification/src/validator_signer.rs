//! The validator signing primitive: an author paired with a private signing
//! key, producing deterministic signatures over canonically serializable
//! messages.

use vstd::prelude::*;

verus! {

use crate::account_address::ADDRESS_LENGTH;
use crate::account_address::AccountAddress;
use crate::crypto::CryptoHash;
use crate::crypto::CryptoMaterialError;
use crate::crypto::Ed25519PrivateKey;
use crate::crypto::Ed25519PublicKey;
use crate::crypto::Ed25519Signature;
use crate::crypto::KEY_LENGTH;
use crate::crypto::ed25519_public_of;
use crate::crypto::ed25519_signature_of;
use crate::crypto::seeded_random_bytes32;
use crate::crypto::std_rng_bytes_of;

/// The mathematical content of a validator signer: the author's address
/// bytes and the private key bytes, a fixed pair for the signer's lifetime.
pub ghost struct ValidatorSignerView {
    pub author: Seq<u8>,
    pub key: Seq<u8>,
}

/// The fixed all-zero seed that backs test-only key generation when no
/// seed is supplied.
pub open spec fn test_seed() -> Seq<u8> {
    Seq::new(32, |i: int| 0u8)
}

/// The address that `ValidatorSigner::from_int` gives a signer: the chosen
/// integer as the first byte, zeroes after it.
pub open spec fn from_int_address(num: u8) -> Seq<u8> {
    Seq::new(ADDRESS_LENGTH as nat, |i: int| if i == 0 {
            num
        } else {
            0u8
        })
}

/// Associates an author with a private signing key, with helpers for
/// signing and validating.  Immutable for its lifetime: the author and key
/// are never replaced independently.  May be shared read-only across all
/// consumers that sign on the node's behalf.
#[derive(Debug)]
pub struct ValidatorSigner {
    author: AccountAddress,
    private_key: Ed25519PrivateKey,
}

impl View for ValidatorSigner {
    type V = ValidatorSignerView;

    closed spec fn view(&self) -> ValidatorSignerView {
        ValidatorSignerView { author: self.author@, key: self.private_key@ }
    }
}

impl ValidatorSigner {
    /// The author and key have their full lengths.
    pub open spec fn wf(&self) -> bool {
        self@.author.len() == ADDRESS_LENGTH && self@.key.len() == KEY_LENGTH
    }

    /// Pairs an author with a private key.  No validation beyond the key
    /// type's own invariant.
    pub fn new(author: AccountAddress, private_key: Ed25519PrivateKey) -> (r: Self)
        ensures
            r@.author == author@,
            r@.key == private_key@,
    {
        ValidatorSigner { author, private_key }
    }

    /// Signs the canonical byte form of `message`.  The signature is a
    /// function of the key and the canonical bytes alone: signing the same
    /// message with the same key always yields the same signature.
    pub fn sign<T: CryptoHash>(&self, message: &T) -> (r: Result<
        Ed25519Signature,
        CryptoMaterialError,
    >)
        requires
            self.wf(),
        ensures
            r matches Ok(sig) && sig@ == ed25519_signature_of(self@.key, message.canonical_bytes())
                && sig.wf(),
    {
        let bytes = message.signing_bytes();
        Ok(self.private_key.sign_bytes(&bytes))
    }

    /// The author associated with this signer.
    pub fn author(&self) -> (r: AccountAddress)
        ensures
            r@ == self@.author,
    {
        self.author.duplicate()
    }

    /// The public key associated with this signer: the public counterpart
    /// of its private key.
    pub fn public_key(&self) -> (r: Ed25519PublicKey)
        requires
            self.wf(),
        ensures
            r@ == ed25519_public_of(self@.key),
            r.wf(),
    {
        self.private_key.public_key()
    }

    /// The private key associated with this signer.  For test fixtures
    /// only: production code paths never read the key back out except to
    /// sign.
    pub fn private_key(&self) -> (r: &Ed25519PrivateKey)
        ensures
            r@ == self@.key,
    {
        &self.private_key
    }

    /// A signer with a random author and a key drawn deterministically
    /// from the given seed; an absent seed falls back to the all-zero test
    /// seed.  For fixture construction, not production identity.
    pub fn random(opt_rng_seed: Option<[u8; 32]>) -> (r: Self)
        ensures
            r.wf(),
            opt_rng_seed matches Some(s) ==> r@.key == std_rng_bytes_of(s@),
            opt_rng_seed is None ==> r@.key == std_rng_bytes_of(test_seed()),
    {
        let seed: [u8; 32] = match opt_rng_seed {
            Some(s) => s,
            None => [0u8; 32],
        };
        proof {
            if opt_rng_seed is None {
                assert(seed@ =~= test_seed());
            }
        }
        let key_bytes = seeded_random_bytes32(&seed);
        let private_key = Ed25519PrivateKey::from_bytes(key_bytes).unwrap();
        let author = AccountAddress::random();
        ValidatorSigner::new(author, private_key)
    }

    /// A signer whose address has the given integer as its first byte and
    /// zeroes after it, with the key drawn from the all-zero test seed.
    /// For test fixtures only.
    pub fn from_int(num: u8) -> (r: Self)
        ensures
            r.wf(),
            r@.author == from_int_address(num),
            r@.key == std_rng_bytes_of(test_seed()),
    {
        let mut bytes: Vec<u8> = Vec::new();
        bytes.push(num);
        let mut i: usize = 1;
        while i < ADDRESS_LENGTH
            invariant
                1 <= i <= ADDRESS_LENGTH,
                bytes@ =~= from_int_address(num).take(i as int),
            decreases ADDRESS_LENGTH - i,
        {
            bytes.push(0u8);
            proof {
                assert(bytes@ =~= from_int_address(num).take(i + 1));
            }
            i = i + 1;
        }
        proof {
            assert(bytes@ =~= from_int_address(num));
        }
        let author = AccountAddress::from_bytes(bytes).unwrap();
        let seed: [u8; 32] = [0u8; 32];
        proof {
            assert(seed@ =~= test_seed());
        }
        let key_bytes = seeded_random_bytes32(&seed);
        let private_key = Ed25519PrivateKey::from_bytes(key_bytes).unwrap();
        ValidatorSigner::new(author, private_key)
    }
}

/// Determinism of signing: two signers holding the same key, handed
/// messages with the same canonical bytes, produce byte-identical
/// signatures.
pub proof fn lemma_sign_deterministic(k1: Seq<u8>, k2: Seq<u8>, m1: Seq<u8>, m2: Seq<u8>)
    requires
        k1 == k2,
        m1 == m2,
    ensures
        ed25519_signature_of(k1, m1) == ed25519_signature_of(k2, m2),
{
}

} // verus!
