//! The fixed-size network-wide account identifier, and the derivation of a
//! peer identifier from a network public key.

use vstd::prelude::*;

verus! {

use crate::crypto::X25519PublicKey;
use crate::crypto::copy_bytes;
use crate::crypto::os_random_bytes32;

/// Number of bytes in an account address.
pub const ADDRESS_LENGTH: usize = 32;

/// How many trailing bytes of the network public key flow into a derived
/// peer identifier; the leading bytes of the address are zero.
pub const DERIVED_SUFFIX_LENGTH: usize = 16;

/// The address derived from a network public key: zeros, then the last
/// `DERIVED_SUFFIX_LENGTH` bytes of the public key.  One-way with respect to
/// the private key, deterministic in the public key.
pub open spec fn derived_address_of(public_key: Seq<u8>) -> Seq<u8>
    recommends
        public_key.len() == ADDRESS_LENGTH,
{
    Seq::new(
        ADDRESS_LENGTH as nat,
        |i: int|
            if i < ADDRESS_LENGTH - DERIVED_SUFFIX_LENGTH {
                0u8
            } else {
                public_key[i]
            },
    )
}

/// The distinguished address whose last byte is one: the framework address
/// that hosts the utility coin.
pub open spec fn address_one() -> Seq<u8> {
    Seq::new(ADDRESS_LENGTH as nat, |i: int| if i == ADDRESS_LENGTH - 1 {
            1u8
        } else {
            0u8
        })
}

/// A fixed-size network-wide account identifier.
#[derive(Debug)]
pub struct AccountAddress {
    bytes: Vec<u8>,
}

impl View for AccountAddress {
    type V = Seq<u8>;

    closed spec fn view(&self) -> Seq<u8> {
        self.bytes@
    }
}

impl AccountAddress {
    /// The address holds exactly `ADDRESS_LENGTH` bytes.
    pub open spec fn wf(&self) -> bool {
        self@.len() == ADDRESS_LENGTH
    }

    /// Builds an address from raw bytes; rejects any length but
    /// `ADDRESS_LENGTH`.
    pub fn from_bytes(bytes: Vec<u8>) -> (r: Option<AccountAddress>)
        ensures
            bytes@.len() == ADDRESS_LENGTH ==> (r matches Some(a) && a@ == bytes@ && a.wf()),
            bytes@.len() != ADDRESS_LENGTH ==> r is None,
    {
        if bytes.len() == ADDRESS_LENGTH {
            Some(AccountAddress { bytes })
        } else {
            None
        }
    }

    /// The raw address bytes.
    pub fn to_bytes(&self) -> (r: Vec<u8>)
        ensures
            r@ == self@,
    {
        copy_bytes(&self.bytes)
    }

    /// An identical copy of this address.
    pub fn duplicate(&self) -> (r: AccountAddress)
        ensures
            r@ == self@,
    {
        AccountAddress { bytes: copy_bytes(&self.bytes) }
    }

    /// The framework address `0x1`.
    pub fn one() -> (r: AccountAddress)
        ensures
            r@ == address_one(),
            r.wf(),
    {
        let mut bytes: Vec<u8> = Vec::new();
        let mut i: usize = 0;
        while i < ADDRESS_LENGTH - 1
            invariant
                i <= ADDRESS_LENGTH - 1,
                bytes@ =~= address_one().take(i as int),
            decreases ADDRESS_LENGTH - 1 - i,
        {
            bytes.push(0u8);
            proof {
                assert(bytes@ =~= address_one().take(i + 1));
            }
            i = i + 1;
        }
        bytes.push(1u8);
        proof {
            assert(bytes@ =~= address_one());
        }
        AccountAddress { bytes }
    }

    /// A fresh address drawn from the operating system's randomness; only
    /// its length is promised.
    pub fn random() -> (r: AccountAddress)
        ensures
            r.wf(),
    {
        AccountAddress { bytes: os_random_bytes32() }
    }

    /// Derives the peer identifier for a node from its network public key:
    /// zeros, then the tail of the public key.
    pub fn from_identity_public_key(public_key: &X25519PublicKey) -> (r: AccountAddress)
        requires
            public_key.wf(),
        ensures
            r@ == derived_address_of(public_key@),
            r.wf(),
    {
        let pk = public_key.to_bytes();
        let mut bytes: Vec<u8> = Vec::new();
        let mut i: usize = 0;
        while i < ADDRESS_LENGTH
            invariant
                i <= ADDRESS_LENGTH,
                pk@.len() == ADDRESS_LENGTH,
                bytes@ =~= derived_address_of(pk@).take(i as int),
            decreases ADDRESS_LENGTH - i,
        {
            if i < ADDRESS_LENGTH - DERIVED_SUFFIX_LENGTH {
                bytes.push(0u8);
            } else {
                bytes.push(pk[i]);
            }
            proof {
                assert(bytes@ =~= derived_address_of(pk@).take(i + 1));
            }
            i = i + 1;
        }
        proof {
            assert(bytes@ =~= derived_address_of(pk@));
        }
        AccountAddress { bytes }
    }
}

} // verus!
