//! The adapter that exposes a shared validator signer to the consensus
//! pipeline's commit-certification stage, narrowed to the one capability
//! that stage may invoke: sign a newly finalized ledger state.

use vstd::prelude::*;

verus! {

use std::sync::Arc;
use crate::account_address::ADDRESS_LENGTH;
use crate::crypto::CryptoMaterialError;
use crate::crypto::Ed25519Signature;
use crate::crypto::KEY_LENGTH;
use crate::crypto::ed25519_signature_of;
use crate::ledger_info::LedgerInfo;
use crate::ledger_info::LedgerInfoView;
use crate::ledger_info::LedgerInfoWithSignatures;
use crate::ledger_info::canonical_bytes_of;
use crate::validator_signer::ValidatorSigner;
use crate::validator_signer::ValidatorSignerView;

/// The safety-rules error taxonomy, as far as this adapter must express
/// it: a cryptographic failure is collapsed into a single
/// serialization-class kind that carries the underlying message text.
#[derive(Debug)]
pub enum SafetyRulesError {
    /// A serialization or signing failure, with the underlying message.
    SerializationError(String),
}

/// Maps a cryptographic failure into the safety-rules error taxonomy.
/// The structured kind collapses into the serialization-class variant;
/// the message text is preserved for diagnosability.
pub fn map_crypto_error(err: CryptoMaterialError) -> (r: SafetyRulesError)
    ensures
        r matches SafetyRulesError::SerializationError(m) && (err
            == CryptoMaterialError::SerializationError ==> m@ == "serialization error"@) && (err
            == CryptoMaterialError::ValidationError ==> m@ == "validation error"@),
{
    match err {
        CryptoMaterialError::SerializationError => SafetyRulesError::SerializationError(
            "serialization error".to_owned(),
        ),
        CryptoMaterialError::ValidationError => SafetyRulesError::SerializationError(
            "validation error".to_owned(),
        ),
    }
}

/// The one capability the commit-certification stage is allowed to invoke.
pub trait CommitSignerProvider {
    /// Whether this provider is ready to sign.
    spec fn wf(&self) -> bool;

    /// The signature this provider owes over a newly finalized ledger
    /// state.  It does not depend on the currently-certified state.
    spec fn vote_signature(&self, new_ledger_info: LedgerInfoView) -> Seq<u8>;

    /// Given the currently-certified ledger state and a newly finalized
    /// one, produces the signature over the new state that contributes to
    /// a commit certificate.  The certified state is provided for
    /// interface symmetry and does not influence the signature.
    fn sign_commit_vote(
        &self,
        _ledger_info: LedgerInfoWithSignatures,
        new_ledger_info: LedgerInfo,
    ) -> (r: Result<Ed25519Signature, SafetyRulesError>)
        requires
            self.wf(),
        ensures
            r matches Ok(sig) && sig@ == self.vote_signature(new_ledger_info@) && sig.wf(),
    ;
}

/// A transparent signing relay: wraps a shared, read-only validator signer
/// and performs no key handling of its own.  Each call is independent and
/// stateless; preventing the same round from being signed twice is the
/// upstream safety-rules collaborator's responsibility.
#[derive(Debug)]
pub struct DagCommitSigner {
    signer: Arc<ValidatorSigner>,
}

impl DagCommitSigner {
    /// The view of the shared signer behind this adapter.
    pub closed spec fn signer_view(&self) -> ValidatorSignerView {
        self.signer@
    }

    /// Wraps a shared signer handle.
    pub fn new(signer: Arc<ValidatorSigner>) -> (r: Self)
        ensures
            r.signer_view() == signer@,
    {
        DagCommitSigner { signer }
    }
}

impl CommitSignerProvider for DagCommitSigner {
    open spec fn wf(&self) -> bool {
        self.signer_view().author.len() == ADDRESS_LENGTH && self.signer_view().key.len()
            == KEY_LENGTH
    }

    open spec fn vote_signature(&self, new_ledger_info: LedgerInfoView) -> Seq<u8> {
        ed25519_signature_of(self.signer_view().key, canonical_bytes_of(new_ledger_info))
    }

    fn sign_commit_vote(
        &self,
        _ledger_info: LedgerInfoWithSignatures,
        new_ledger_info: LedgerInfo,
    ) -> (r: Result<Ed25519Signature, SafetyRulesError>) {
        let result = self.signer.sign(&new_ledger_info);
        match result {
            Ok(signature) => Ok(signature),
            Err(err) => Err(map_crypto_error(err)),
        }
    }
}

/// A commit vote depends only on the signer's key and the newly finalized
/// ledger state: two adapters over the same key, handed the same new
/// state, owe byte-identical signatures, whatever currently-certified
/// state accompanies either call.
pub proof fn lemma_commit_vote_deterministic(
    s1: DagCommitSigner,
    s2: DagCommitSigner,
    l1: LedgerInfoView,
    l2: LedgerInfoView,
)
    requires
        s1.signer_view().key == s2.signer_view().key,
        l1 == l2,
    ensures
        s1.vote_signature(l1) == s2.vote_signature(l2),
{
}

} // verus!
