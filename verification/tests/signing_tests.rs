//! Tests of the validator signer and the commit signer adapter.

use std::sync::Arc;

use validator_identity::account_address::AccountAddress;
use validator_identity::coin::CoinType;
use validator_identity::coin::SupraCoinType;
use validator_identity::coin::TypeTag;
use validator_identity::commit_signer::CommitSignerProvider;
use validator_identity::commit_signer::DagCommitSigner;
use validator_identity::crypto::CryptoHash;
use validator_identity::crypto::Ed25519PrivateKey;
use validator_identity::ledger_info::LedgerInfo;
use validator_identity::ledger_info::LedgerInfoWithSignatures;
use validator_identity::validator_signer::ValidatorSigner;

fn to_hex(bytes: &[u8]) -> String {
    bytes.iter().map(|b| format!("{:02x}", b)).collect()
}

fn signer(seed: u8) -> ValidatorSigner {
    ValidatorSigner::new(
        AccountAddress::from_bytes(vec![seed; 32]).unwrap(),
        Ed25519PrivateKey::from_bytes(vec![seed; 32]).unwrap(),
    )
}

fn ledger_info(round: u64) -> LedgerInfo {
    LedgerInfo::new(3, round, 1000 + round, 42_000_000, vec![7u8; 32]).unwrap()
}

#[test]
fn sign_is_deterministic() {
    let s = signer(1);
    let li = ledger_info(5);
    let sig1 = s.sign(&li).unwrap().to_bytes();
    let sig2 = s.sign(&ledger_info(5)).unwrap().to_bytes();
    assert_eq!(sig1, sig2);
    // the same key in a fresh signer produces the same signature
    let sig3 = signer(1).sign(&ledger_info(5)).unwrap().to_bytes();
    assert_eq!(sig1, sig3);
}

#[test]
fn sign_matches_reference_implementation() {
    let s = signer(2);
    let li = ledger_info(9);
    let produced = s.sign(&li).unwrap().to_bytes();
    // sign the same canonical bytes directly with ed25519-dalek
    let sk = ed25519_dalek::SigningKey::from_bytes(&[2u8; 32]);
    let expected = ed25519_dalek::Signer::sign(&sk, &li.signing_bytes());
    assert_eq!(produced, expected.to_bytes().to_vec());
}

#[test]
fn signer_accessors_return_constructed_pair() {
    let author = AccountAddress::from_bytes(vec![4u8; 32]).unwrap();
    let key = Ed25519PrivateKey::from_bytes(vec![6u8; 32]).unwrap();
    let s = ValidatorSigner::new(author, key);
    assert_eq!(s.author().to_bytes(), vec![4u8; 32]);
    assert_eq!(s.private_key().to_bytes(), vec![6u8; 32]);
    // the public key is the public counterpart of the constructed key
    let expected = ed25519_dalek::SigningKey::from_bytes(&[6u8; 32])
        .verifying_key()
        .to_bytes();
    assert_eq!(s.public_key().to_bytes(), expected.to_vec());
}

#[test]
fn ed25519_public_key_matches_reference_vector() {
    // RFC 8032 test vector 1: secret key and its public key.
    let secret = validator_identity::hex::hex_decode(
        b"9d61b91d34bad9c4d7e00fc0a6ba5c48ab30dba0e8c1aac35713bdf51db92306",
    );
    let secret = match secret {
        Some(s) => s,
        None => panic!("test vector must decode"),
    };
    let key = Ed25519PrivateKey::from_bytes(secret).unwrap();
    let sk_arr: [u8; 32] = key.to_bytes().as_slice().try_into().unwrap();
    let expected = ed25519_dalek::SigningKey::from_bytes(&sk_arr).verifying_key();
    assert_eq!(key.public_key().to_bytes(), expected.to_bytes().to_vec());
}

#[test]
fn from_int_builds_recognizable_address() {
    let s = ValidatorSigner::from_int(37);
    let mut expected = vec![0u8; 32];
    expected[0] = 37;
    assert_eq!(s.author().to_bytes(), expected);
}

#[test]
fn random_is_reproducible_from_seed() {
    let a = ValidatorSigner::random(Some([7u8; 32]));
    let b = ValidatorSigner::random(Some([7u8; 32]));
    assert_eq!(a.private_key().to_bytes(), b.private_key().to_bytes());
    let c = ValidatorSigner::random(None);
    let d = ValidatorSigner::random(Some([0u8; 32]));
    assert_eq!(c.private_key().to_bytes(), d.private_key().to_bytes());
    // from_int draws from the same all-zero test seed
    let e = ValidatorSigner::from_int(1);
    assert_eq!(c.private_key().to_bytes(), e.private_key().to_bytes());
}

#[test]
fn commit_vote_is_deterministic_and_ignores_certified_state() {
    let s = Arc::new(signer(3));
    let adapter = DagCommitSigner::new(s.clone());
    let certified_a = LedgerInfoWithSignatures::new(ledger_info(1), Vec::new());
    let certified_b = LedgerInfoWithSignatures::new(ledger_info(2), Vec::new());
    let sig1 = adapter.sign_commit_vote(certified_a, ledger_info(8)).unwrap().to_bytes();
    let sig2 = adapter.sign_commit_vote(certified_b, ledger_info(8)).unwrap().to_bytes();
    assert_eq!(sig1, sig2);
    // the commit vote is exactly the signer's signature over the new state
    let direct = s.sign(&ledger_info(8)).unwrap().to_bytes();
    assert_eq!(sig1, direct);
}

#[test]
fn commit_vote_changes_with_new_ledger_info() {
    let adapter = DagCommitSigner::new(Arc::new(signer(3)));
    let certified = LedgerInfoWithSignatures::new(ledger_info(1), Vec::new());
    let certified2 = LedgerInfoWithSignatures::new(ledger_info(1), Vec::new());
    let sig1 = adapter.sign_commit_vote(certified, ledger_info(8)).unwrap().to_bytes();
    let sig2 = adapter.sign_commit_vote(certified2, ledger_info(9)).unwrap().to_bytes();
    assert_ne!(sig1, sig2);
}

#[test]
fn commit_vote_verifies_under_signer_public_key() {
    let s = Arc::new(signer(5));
    let adapter = DagCommitSigner::new(s.clone());
    let certified = LedgerInfoWithSignatures::new(ledger_info(1), Vec::new());
    let new_li = ledger_info(12);
    let sig = adapter.sign_commit_vote(certified, ledger_info(12)).unwrap().to_bytes();
    let sig_arr: [u8; 64] = sig.as_slice().try_into().unwrap();
    let vk_arr: [u8; 32] = s.public_key().to_bytes().as_slice().try_into().unwrap();
    let vk = ed25519_dalek::VerifyingKey::from_bytes(&vk_arr).unwrap();
    let signature = ed25519_dalek::Signature::from_bytes(&sig_arr);
    assert!(ed25519_dalek::Verifier::verify(&vk, &new_li.signing_bytes(), &signature).is_ok());
}

#[test]
fn ledger_info_accessors() {
    let li = ledger_info(4);
    assert_eq!(li.epoch(), 3);
    assert_eq!(li.round(), 4);
    assert_eq!(li.version(), 1004);
    assert_eq!(li.timestamp_usecs(), 42_000_000);
    assert!(LedgerInfo::new(1, 2, 3, 4, vec![0u8; 31]).is_none());
    let with_sigs = LedgerInfoWithSignatures::new(ledger_info(4), Vec::new());
    assert_eq!(with_sigs.ledger_info().round(), 4);
}

#[test]
fn supra_coin_type_tag() {
    let tag = SupraCoinType::type_tag();
    match tag {
        TypeTag::Struct(s) => {
            let mut one = vec![0u8; 32];
            one[31] = 1;
            assert_eq!(s.address.to_bytes(), one);
            assert_eq!(s.module, "supra_coin");
            assert_eq!(s.name, "SupraCoin");
            assert!(s.type_args.is_empty());
        },
    }
    let mut one = vec![0u8; 32];
    one[31] = 1;
    assert_eq!(SupraCoinType::coin_info_address().to_bytes(), one);
}
