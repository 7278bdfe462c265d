//! Hashing fixtures: golden vectors for the domain separator and the
//! structured-signing digest, and sensitivity of the separator to every
//! domain field.

use zkattestify::errors::DomainError;
use zkattestify::hashing::domain_separator;
use zkattestify::hashing::hash_message;
use zkattestify::types::Attest;
use zkattestify::types::Domain;

fn word_u64(x: u64) -> Vec<u8> {
    let mut v = vec![0u8; 24];
    v.extend_from_slice(&x.to_be_bytes());
    v
}

fn fixture_domain() -> Domain {
    Domain {
        name: Some(b"Attest".to_vec()),
        version: Some(b"1".to_vec()),
        chain_id: word_u64(1),
        verifying_contract: vec![0x11; 20],
    }
}

fn fixture_attest() -> Attest {
    Attest {
        version: 1,
        schema: vec![0u8; 32],
        recipient: vec![0x22; 20],
        time: 1000,
        expiration_time: 0,
        revocable: true,
        ref_uid: vec![0u8; 32],
        data: vec![0u8; 32],
        salt: vec![0u8; 32],
    }
}

#[test]
fn domain_separator_matches_reference_vector() {
    let sep = domain_separator(&fixture_domain()).unwrap();
    assert_eq!(
        hex::encode(&sep),
        "0aef843827051d9aa562443a579d772d24e7a9f9f264e3d7a3f62f9f5e4c5507"
    );
}

#[test]
fn domain_separator_is_deterministic() {
    let a = domain_separator(&fixture_domain()).unwrap();
    let b = domain_separator(&fixture_domain()).unwrap();
    assert_eq!(a, b);
}

#[test]
fn domain_separator_depends_on_name() {
    let mut d = fixture_domain();
    d.name = Some(b"Attest2".to_vec());
    assert_ne!(
        domain_separator(&d).unwrap(),
        domain_separator(&fixture_domain()).unwrap()
    );
}

#[test]
fn domain_separator_depends_on_version() {
    let mut d = fixture_domain();
    d.version = Some(b"2".to_vec());
    assert_ne!(
        domain_separator(&d).unwrap(),
        domain_separator(&fixture_domain()).unwrap()
    );
}

#[test]
fn domain_separator_depends_on_chain_id() {
    let mut d = fixture_domain();
    d.chain_id = word_u64(5);
    assert_ne!(
        domain_separator(&d).unwrap(),
        domain_separator(&fixture_domain()).unwrap()
    );
}

#[test]
fn domain_separator_depends_on_contract() {
    let mut d = fixture_domain();
    d.verifying_contract = vec![0x12; 20];
    assert_ne!(
        domain_separator(&d).unwrap(),
        domain_separator(&fixture_domain()).unwrap()
    );
}

#[test]
fn domain_missing_name_is_rejected() {
    let mut d = fixture_domain();
    d.name = None;
    assert_eq!(domain_separator(&d), Err(DomainError::MissingField));
}

#[test]
fn domain_missing_version_is_rejected() {
    let mut d = fixture_domain();
    d.version = None;
    assert_eq!(domain_separator(&d), Err(DomainError::MissingField));
}

#[test]
fn hash_message_matches_reference_vector() {
    let sep = domain_separator(&fixture_domain()).unwrap();
    let digest = hash_message(&sep, &fixture_attest());
    assert_eq!(
        hex::encode(&digest),
        "b1315d925f99a8e47c87ac5adff4ffb7ddd49424417815e327e55e3d5ed66e69"
    );
}

#[test]
fn hash_message_depends_on_data() {
    let sep = domain_separator(&fixture_domain()).unwrap();
    let mut a = fixture_attest();
    a.data[31] ^= 1;
    assert_ne!(hash_message(&sep, &a), hash_message(&sep, &fixture_attest()));
}
