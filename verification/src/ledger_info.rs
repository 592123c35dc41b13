//! The canonical summary of a ledger state, the object a commit vote signs.
//!
//! A `LedgerInfo` carries plain values; its canonical byte serialization is
//! defined and computed here, prefixed with a fixed domain tag so that
//! signatures over structurally different message types can never collide.

use vstd::prelude::*;

verus! {

use vstd::bytes::spec_u64_to_le_bytes;
use vstd::bytes::u64_to_le_bytes;
use crate::crypto::CryptoHash;
use crate::crypto::Ed25519Signature;
use crate::crypto::push_all;

/// Byte length of a hash value.
pub const HASH_LENGTH: usize = 32;

/// The domain tag prefixed to every canonical ledger-info serialization:
/// the bytes of `"ledger_info::"`.
pub open spec fn ledger_info_tag() -> Seq<u8> {
    seq![108u8, 101, 100, 103, 101, 114, 95, 105, 110, 102, 111, 58, 58]
}

/// The mathematical content of a ledger info.
pub ghost struct LedgerInfoView {
    pub epoch: u64,
    pub round: u64,
    pub version: u64,
    pub timestamp_usecs: u64,
    pub consensus_data_hash: Seq<u8>,
}

/// The canonical, unambiguous byte serialization of a ledger info: the
/// domain tag, each number in little-endian order, then the hash bytes.
pub open spec fn canonical_bytes_of(l: LedgerInfoView) -> Seq<u8> {
    ledger_info_tag() + spec_u64_to_le_bytes(l.epoch) + spec_u64_to_le_bytes(l.round)
        + spec_u64_to_le_bytes(l.version) + spec_u64_to_le_bytes(l.timestamp_usecs)
        + l.consensus_data_hash
}

/// The canonical summary of a ledger state at a given version.
#[derive(Debug)]
pub struct LedgerInfo {
    epoch: u64,
    round: u64,
    version: u64,
    timestamp_usecs: u64,
    consensus_data_hash: Vec<u8>,
}

impl View for LedgerInfo {
    type V = LedgerInfoView;

    closed spec fn view(&self) -> LedgerInfoView {
        LedgerInfoView {
            epoch: self.epoch,
            round: self.round,
            version: self.version,
            timestamp_usecs: self.timestamp_usecs,
            consensus_data_hash: self.consensus_data_hash@,
        }
    }
}

impl LedgerInfo {
    /// The hash holds exactly `HASH_LENGTH` bytes.
    pub open spec fn wf(&self) -> bool {
        self@.consensus_data_hash.len() == HASH_LENGTH
    }

    /// Builds a ledger info; rejects a hash of any length but
    /// `HASH_LENGTH`.
    pub fn new(
        epoch: u64,
        round: u64,
        version: u64,
        timestamp_usecs: u64,
        consensus_data_hash: Vec<u8>,
    ) -> (r: Option<LedgerInfo>)
        ensures
            consensus_data_hash@.len() == HASH_LENGTH ==> (r matches Some(l) && l.wf()
                && l@ == (LedgerInfoView {
                epoch,
                round,
                version,
                timestamp_usecs,
                consensus_data_hash: consensus_data_hash@,
            })),
            consensus_data_hash@.len() != HASH_LENGTH ==> r is None,
    {
        if consensus_data_hash.len() == HASH_LENGTH {
            Some(LedgerInfo { epoch, round, version, timestamp_usecs, consensus_data_hash })
        } else {
            None
        }
    }

    /// The epoch this state belongs to.
    pub fn epoch(&self) -> (r: u64)
        ensures
            r == self@.epoch,
    {
        self.epoch
    }

    /// The consensus round that finalized this state.
    pub fn round(&self) -> (r: u64)
        ensures
            r == self@.round,
    {
        self.round
    }

    /// The ledger version of this state.
    pub fn version(&self) -> (r: u64)
        ensures
            r == self@.version,
    {
        self.version
    }

    /// The timestamp of this state, in microseconds.
    pub fn timestamp_usecs(&self) -> (r: u64)
        ensures
            r == self@.timestamp_usecs,
    {
        self.timestamp_usecs
    }
}

impl CryptoHash for LedgerInfo {
    open spec fn canonical_bytes(&self) -> Seq<u8> {
        canonical_bytes_of(self@)
    }

    fn signing_bytes(&self) -> (r: Vec<u8>) {
        let mut out: Vec<u8> = Vec::new();
        let tag: [u8; 13] = [108, 101, 100, 103, 101, 114, 95, 105, 110, 102, 111, 58, 58];
        proof {
            assert(tag@ =~= ledger_info_tag());
        }
        push_all(&mut out, tag.as_slice());
        let e = u64_to_le_bytes(self.epoch);
        push_all(&mut out, e.as_slice());
        let ro = u64_to_le_bytes(self.round);
        push_all(&mut out, ro.as_slice());
        let v = u64_to_le_bytes(self.version);
        push_all(&mut out, v.as_slice());
        let t = u64_to_le_bytes(self.timestamp_usecs);
        push_all(&mut out, t.as_slice());
        push_all(&mut out, self.consensus_data_hash.as_slice());
        proof {
            assert(out@ =~= canonical_bytes_of(self@));
        }
        out
    }
}

/// A ledger info together with the signatures already aggregated over it:
/// the currently-certified state handed to the commit signer for interface
/// symmetry.
#[derive(Debug)]
pub struct LedgerInfoWithSignatures {
    ledger_info: LedgerInfo,
    signatures: Vec<Ed25519Signature>,
}

/// The mathematical content of a certified ledger info.
pub ghost struct LedgerInfoWithSignaturesView {
    pub ledger_info: LedgerInfoView,
    pub signatures: Seq<Seq<u8>>,
}

impl View for LedgerInfoWithSignatures {
    type V = LedgerInfoWithSignaturesView;

    closed spec fn view(&self) -> LedgerInfoWithSignaturesView {
        LedgerInfoWithSignaturesView {
            ledger_info: self.ledger_info@,
            signatures: Seq::new(self.signatures@.len(), |i: int| self.signatures@[i]@),
        }
    }
}

impl LedgerInfoWithSignatures {
    /// Wraps a ledger info with the signatures aggregated over it.
    pub fn new(ledger_info: LedgerInfo, signatures: Vec<Ed25519Signature>) -> (r: Self)
        ensures
            r@.ledger_info == ledger_info@,
            r@.signatures.len() == signatures@.len(),
            forall|i: int| 0 <= i < signatures@.len() ==> r@.signatures[i] == signatures@[i]@,
    {
        LedgerInfoWithSignatures { ledger_info, signatures }
    }

    /// The certified ledger info itself.
    pub fn ledger_info(&self) -> (r: &LedgerInfo)
        ensures
            r@ == self@.ledger_info,
    {
        &self.ledger_info
    }
}

} // verus!
