//! Tests of the identity blob document format and the raw key file logic.

use validator_identity::account_address::AccountAddress;
use validator_identity::crypto::Ed25519PrivateKey;
use validator_identity::crypto::X25519PrivateKey;
use validator_identity::identity::Identity;
use validator_identity::identity::IdentityBlob;
use validator_identity::identity::IdentityError;
use validator_identity::identity::IdentitySource;
use validator_identity::identity::SecureBackend;

fn to_hex(bytes: &[u8]) -> String {
    bytes.iter().map(|b| format!("{:02x}", b)).collect()
}

fn x25519_key(seed: u8) -> X25519PrivateKey {
    X25519PrivateKey::from_bytes(vec![seed; 32]).unwrap()
}

fn ed25519_key(seed: u8) -> Ed25519PrivateKey {
    Ed25519PrivateKey::from_bytes(vec![seed; 32]).unwrap()
}

fn address(seed: u8) -> AccountAddress {
    AccountAddress::from_bytes(vec![seed; 32]).unwrap()
}

#[test]
fn blob_document_round_trip_full() {
    let blob = IdentityBlob {
        account_address: Some(address(1)),
        account_private_key: Some(ed25519_key(2)),
        consensus_private_key: Some(ed25519_key(3)),
        network_private_key: x25519_key(4),
    };
    let doc = blob.to_document();
    let back = IdentityBlob::from_document(&doc).unwrap();
    assert_eq!(back.account_address.unwrap().to_bytes(), vec![1u8; 32]);
    assert_eq!(back.account_private_key.unwrap().to_bytes(), vec![2u8; 32]);
    assert_eq!(back.consensus_private_key.unwrap().to_bytes(), vec![3u8; 32]);
    assert_eq!(back.network_private_key.to_bytes(), vec![4u8; 32]);
}

#[test]
fn blob_document_round_trip_minimal() {
    let blob = IdentityBlob {
        account_address: None,
        account_private_key: None,
        consensus_private_key: None,
        network_private_key: x25519_key(9),
    };
    let doc = blob.to_document();
    let expected = format!("network_private_key: {}\n", to_hex(&[9u8; 32]));
    assert_eq!(doc, expected.as_bytes().to_vec());
    let back = IdentityBlob::from_document(&doc).unwrap();
    assert!(back.account_address.is_none());
    assert!(back.account_private_key.is_none());
    assert!(back.consensus_private_key.is_none());
    assert_eq!(back.network_private_key.to_bytes(), vec![9u8; 32]);
}

#[test]
fn blob_document_partial_fields() {
    let blob = IdentityBlob {
        account_address: Some(address(7)),
        account_private_key: None,
        consensus_private_key: Some(ed25519_key(8)),
        network_private_key: x25519_key(9),
    };
    let doc = blob.to_document();
    let expected = format!(
        "account_address: {}\nconsensus_private_key: {}\nnetwork_private_key: {}\n",
        to_hex(&[7u8; 32]),
        to_hex(&[8u8; 32]),
        to_hex(&[9u8; 32]),
    );
    assert_eq!(doc, expected.as_bytes().to_vec());
    let back = IdentityBlob::from_document(&doc).unwrap();
    assert_eq!(back.account_address.unwrap().to_bytes(), vec![7u8; 32]);
    assert!(back.account_private_key.is_none());
    assert_eq!(back.consensus_private_key.unwrap().to_bytes(), vec![8u8; 32]);
}

#[test]
fn blob_document_rejects_unknown_field() {
    let doc = format!("unknown_field: {}\nnetwork_private_key: {}\n", to_hex(&[1u8; 32]), to_hex(&[2u8; 32]));
    let r = IdentityBlob::from_document(&doc.as_bytes().to_vec());
    assert_eq!(r.unwrap_err(), IdentityError::DeserializationError);
}

#[test]
fn blob_document_rejects_duplicate_field() {
    let doc = format!(
        "network_private_key: {}\nnetwork_private_key: {}\n",
        to_hex(&[1u8; 32]),
        to_hex(&[2u8; 32]),
    );
    let r = IdentityBlob::from_document(&doc.as_bytes().to_vec());
    assert_eq!(r.unwrap_err(), IdentityError::DeserializationError);
}

#[test]
fn blob_document_rejects_missing_network_key() {
    let doc = format!("account_address: {}\n", to_hex(&[1u8; 32]));
    let r = IdentityBlob::from_document(&doc.as_bytes().to_vec());
    assert_eq!(r.unwrap_err(), IdentityError::DeserializationError);
}

#[test]
fn blob_document_rejects_bad_hex() {
    let mut value = to_hex(&[1u8; 32]);
    value.replace_range(0..1, "g");
    let doc = format!("network_private_key: {}\n", value);
    let r = IdentityBlob::from_document(&doc.as_bytes().to_vec());
    assert_eq!(r.unwrap_err(), IdentityError::DeserializationError);
}

#[test]
fn blob_document_rejects_truncated_value() {
    let mut doc = format!("network_private_key: {}\n", to_hex(&[1u8; 32]));
    doc.truncate(doc.len() - 3);
    let r = IdentityBlob::from_document(&doc.as_bytes().to_vec());
    assert_eq!(r.unwrap_err(), IdentityError::DeserializationError);
}

#[test]
fn hex_round_trip() {
    let bytes: Vec<u8> = vec![0, 15, 16, 170, 255];
    let encoded = validator_identity::hex::hex_encode(&bytes);
    assert_eq!(encoded, b"000f10aaff".to_vec());
    let decoded = validator_identity::hex::hex_decode(&encoded).unwrap();
    assert_eq!(decoded, bytes);
    assert!(validator_identity::hex::hex_decode(b"0f0").is_none());
    assert!(validator_identity::hex::hex_decode(b"zz").is_none());
}

#[test]
fn load_identity_absent_file_is_no_identity() {
    let r = Identity::load_identity(None).unwrap();
    assert!(r.is_none());
}

#[test]
fn load_identity_derives_peer_id_from_public_key() {
    let key_bytes = vec![5u8; 32];
    let id = Identity::load_identity(Some(key_bytes.clone())).unwrap().unwrap();
    match id {
        Identity::FromConfig(c) => {
            assert_eq!(c.key.to_bytes(), key_bytes);
            assert_eq!(c.source, IdentitySource::UserProvided);
            // derive the peer id independently through x25519-dalek
            let mut arr = [0u8; 32];
            arr.copy_from_slice(&key_bytes);
            let secret = x25519_dalek::StaticSecret::from(arr);
            let public = x25519_dalek::PublicKey::from(&secret).to_bytes();
            let mut expected = [0u8; 32];
            expected[16..].copy_from_slice(&public[16..]);
            assert_eq!(c.peer_id.to_bytes(), expected.to_vec());
        },
        _ => panic!("expected a config-embedded identity"),
    }
}

#[test]
fn load_identity_rejects_wrong_length() {
    let r = Identity::load_identity(Some(vec![5u8; 31]));
    assert_eq!(
        r.unwrap_err(),
        IdentityError::WrongKeyLength { expected: 32, actual: 31 }
    );
    let r = Identity::load_identity(Some(vec![5u8; 33]));
    assert_eq!(
        r.unwrap_err(),
        IdentityError::WrongKeyLength { expected: 32, actual: 33 }
    );
}

#[test]
fn save_then_load_recovers_public_key() {
    let key = x25519_key(11);
    let saved_bytes = key.to_bytes();
    let id = Identity::load_identity(Some(saved_bytes)).unwrap().unwrap();
    match id {
        Identity::FromConfig(c) => {
            assert_eq!(c.key.public_key().to_bytes(), key.public_key().to_bytes());
        },
        _ => panic!("expected a config-embedded identity"),
    }
}

#[test]
fn x25519_public_key_matches_reference_vector() {
    // RFC 7748 test vector: Alice's private and public keys.
    let secret = validator_identity::hex::hex_decode(
        b"77076d0a7318a57d3c16c17251b26645df4c2f87ebc0992ab177fba51db92c2a",
    )
    .unwrap();
    let key = X25519PrivateKey::from_bytes(secret).unwrap();
    let public = key.public_key().to_bytes();
    assert_eq!(
        to_hex(&public),
        "8520f0098930a754748b7ddcb43ef75a0dbf3a0d26381af4eba4a98eaa9b4e6a"
    );
}

#[test]
fn identity_constructors_tag_provenance() {
    let id = Identity::from_config(x25519_key(1), address(2));
    match id {
        Identity::FromConfig(c) => assert_eq!(c.source, IdentitySource::UserProvided),
        _ => panic!("expected a config-embedded identity"),
    }
    let id = Identity::from_config_auto_generated(x25519_key(1), address(2));
    match id {
        Identity::FromConfig(c) => assert_eq!(c.source, IdentitySource::AutoGenerated),
        _ => panic!("expected a config-embedded identity"),
    }
    let id = Identity::from_storage(
        "net_key".to_owned(),
        "peer_id".to_owned(),
        SecureBackend { descriptor: "vault".to_owned() },
    );
    match id {
        Identity::FromStorage(s) => {
            assert_eq!(s.key_name, "net_key");
            assert_eq!(s.peer_id_name, "peer_id");
            assert_eq!(s.backend.descriptor, "vault");
        },
        _ => panic!("expected a storage identity"),
    }
    let id = Identity::from_file("/tmp/key".to_owned());
    match id {
        Identity::FromFile(f) => assert_eq!(f.path, "/tmp/key"),
        _ => panic!("expected a file identity"),
    }
    assert_eq!(IdentitySource::default(), IdentitySource::UserProvided);
}

#[test]
fn blob_peer_id_derived_when_address_absent() {
    let blob = IdentityBlob {
        account_address: None,
        account_private_key: None,
        consensus_private_key: None,
        network_private_key: x25519_key(5),
    };
    let secret = x25519_dalek::StaticSecret::from([5u8; 32]);
    let public = x25519_dalek::PublicKey::from(&secret).to_bytes();
    let mut expected = [0u8; 32];
    expected[16..].copy_from_slice(&public[16..]);
    assert_eq!(blob.peer_id().to_bytes(), expected.to_vec());
}

#[test]
fn blob_peer_id_authoritative_when_address_present() {
    let blob = IdentityBlob {
        account_address: Some(address(42)),
        account_private_key: None,
        consensus_private_key: None,
        network_private_key: x25519_key(5),
    };
    assert_eq!(blob.peer_id().to_bytes(), vec![42u8; 32]);
}
