//! Validator identity and commit-vote signing.
//!
//! A validator obtains and persists the key material that proves its identity
//! to peers, and signs finalized ledger states so that other validators can
//! aggregate its votes into a commit certificate.  This crate holds the
//! identity-source model and its on-disk forms, the validator signing
//! primitive, and the adapter that exposes signing to the commit-certification
//! stage of the consensus pipeline.

pub mod account_address;
pub mod coin;
pub mod commit_signer;
pub mod crypto;
pub mod hex;
pub mod identity;
pub mod ledger_info;
pub mod options;
pub mod validator_signer;
