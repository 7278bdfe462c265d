//! End-to-end verifier scenarios: signing a digest with a known key and
//! checking recovery, the age boundary, tampering, and the journal.

use zkattestify::attestation::encode_journal;
use zkattestify::attestation::verify_attestation;
use zkattestify::decode::decode_date_of_birth;
use zkattestify::errors::VerifyError;
use zkattestify::hashing::domain_separator;
use zkattestify::hashing::hash_message;
use zkattestify::types::Attest;
use zkattestify::types::Domain;
use zkattestify::types::Journal;
use zkattestify::types::Signature;
use zkattestify::types::VerificationInput;

fn word_u64(x: u64) -> Vec<u8> {
    let mut v = vec![0u8; 24];
    v.extend_from_slice(&x.to_be_bytes());
    v
}

fn fixture_domain() -> Domain {
    Domain {
        name: Some(b"Attest".to_vec()),
        version: Some(b"1".to_vec()),
        chain_id: word_u64(1),
        verifying_contract: vec![0x11; 20],
    }
}

fn fixture_attest(birth: u64) -> Attest {
    Attest {
        version: 1,
        schema: vec![0u8; 32],
        recipient: vec![0x22; 20],
        time: 1000,
        expiration_time: 0,
        revocable: true,
        ref_uid: vec![0u8; 32],
        data: word_u64(birth),
        salt: vec![0u8; 32],
    }
}

fn signing_key() -> k256::ecdsa::SigningKey {
    k256::ecdsa::SigningKey::from_slice(&[0x01u8; 32]).unwrap()
}

fn signer_address(sk: &k256::ecdsa::SigningKey) -> Vec<u8> {
    let point = sk.verifying_key().to_encoded_point(false);
    let h = alloy_primitives::keccak256(&point.as_bytes()[1..]);
    h[12..].to_vec()
}

fn sign_digest(sk: &k256::ecdsa::SigningKey, digest: &[u8]) -> Signature {
    let (sig, recid) = sk.sign_prehash_recoverable(digest).unwrap();
    Signature {
        r: sig.r().to_bytes().to_vec(),
        s: sig.s().to_bytes().to_vec(),
        v: recid.to_byte() + 27,
    }
}

/// A fully signed input for the given policy parameters.
fn signed_input(birth: u64, threshold_age: u64, current_timestamp: u64) -> VerificationInput {
    let sk = signing_key();
    let sep = domain_separator(&fixture_domain()).unwrap();
    let attestation = fixture_attest(birth);
    let digest = hash_message(&sep, &attestation);
    VerificationInput {
        signer_address: signer_address(&sk),
        signature: sign_digest(&sk, &digest),
        threshold_age,
        current_timestamp,
        attestation,
        domain_separator: sep,
    }
}

#[test]
fn round_trip_signature_recovers_signer() {
    let input = signed_input(0, 500_000_000, 1_000_000_000);
    let journal = verify_attestation(&input).unwrap();
    assert_eq!(journal.signer_address, input.signer_address);
}

#[test]
fn end_to_end_commits_journal() {
    let input = signed_input(0, 500_000_000, 1_000_000_000);
    let journal = verify_attestation(&input).unwrap();
    assert_eq!(journal.threshold_age, 500_000_000);
    assert_eq!(journal.current_timestamp, 1_000_000_000);
    assert_eq!(journal.attestation_time, 1000);
    assert_eq!(journal.recipient, vec![0x22; 20]);
    assert_eq!(journal.domain_separator, input.domain_separator);
}

#[test]
fn end_to_end_high_threshold_aborts() {
    let input = signed_input(0, 2_000_000_000, 1_000_000_000);
    assert_eq!(
        verify_attestation(&input),
        Err(VerifyError::AgeBelowThreshold)
    );
}

#[test]
fn age_equal_to_threshold_passes() {
    let input = signed_input(500_000_000, 500_000_000, 1_000_000_000);
    assert!(verify_attestation(&input).is_ok());
}

#[test]
fn age_one_below_threshold_fails() {
    let input = signed_input(500_000_001, 500_000_000, 1_000_000_000);
    assert_eq!(
        verify_attestation(&input),
        Err(VerifyError::AgeBelowThreshold)
    );
}

#[test]
fn birth_after_current_is_rejected() {
    let input = signed_input(1_000_000_001, 0, 1_000_000_000);
    assert_eq!(
        verify_attestation(&input),
        Err(VerifyError::BirthAfterCurrent)
    );
}

#[test]
fn tampered_data_bit_is_rejected() {
    let mut input = signed_input(0, 500_000_000, 1_000_000_000);
    input.attestation.data[31] ^= 1;
    assert!(verify_attestation(&input).is_err());
}

#[test]
fn tampered_data_high_bit_is_rejected() {
    let mut input = signed_input(0, 500_000_000, 1_000_000_000);
    input.attestation.data[0] ^= 0x80;
    assert!(verify_attestation(&input).is_err());
}

#[test]
fn tampered_signature_r_is_rejected() {
    let mut input = signed_input(0, 500_000_000, 1_000_000_000);
    input.signature.r[0] ^= 1;
    assert!(verify_attestation(&input).is_err());
}

#[test]
fn tampered_domain_separator_is_rejected() {
    let mut input = signed_input(0, 500_000_000, 1_000_000_000);
    input.domain_separator[0] ^= 1;
    assert!(verify_attestation(&input).is_err());
}

#[test]
fn different_domains_commit_different_journals() {
    let a = signed_input(0, 500_000_000, 1_000_000_000);
    let sk = signing_key();
    let mut other_domain = fixture_domain();
    other_domain.chain_id = word_u64(5);
    let sep = domain_separator(&other_domain).unwrap();
    let attestation = fixture_attest(0);
    let digest = hash_message(&sep, &attestation);
    let b = VerificationInput {
        signer_address: signer_address(&sk),
        signature: sign_digest(&sk, &digest),
        threshold_age: 500_000_000,
        current_timestamp: 1_000_000_000,
        attestation,
        domain_separator: sep,
    };
    let ja = verify_attestation(&a).unwrap();
    let jb = verify_attestation(&b).unwrap();
    assert_ne!(ja.domain_separator, jb.domain_separator);
    assert_ne!(encode_journal(&ja), encode_journal(&jb));
    // Re-running on the untouched input reproduces the first journal.
    let ja2 = verify_attestation(&a).unwrap();
    assert_eq!(encode_journal(&ja), encode_journal(&ja2));
}

#[test]
fn wrong_claimed_signer_is_mismatch() {
    let mut input = signed_input(0, 500_000_000, 1_000_000_000);
    input.signer_address = vec![0x33; 20];
    assert_eq!(
        verify_attestation(&input),
        Err(VerifyError::SignatureMismatch)
    );
}

#[test]
fn bad_recovery_byte_fails_recovery() {
    let mut input = signed_input(0, 500_000_000, 1_000_000_000);
    input.signature.v = 29;
    assert_eq!(verify_attestation(&input), Err(VerifyError::RecoveryFailed));
}

#[test]
fn malformed_payload_is_rejected_before_signer_check() {
    // The payload is 31 bytes, yet correctly signed: the verifier must
    // still reject it as malformed.
    let sk = signing_key();
    let sep = domain_separator(&fixture_domain()).unwrap();
    let mut attestation = fixture_attest(0);
    attestation.data = vec![0u8; 31];
    let digest = hash_message(&sep, &attestation);
    let input = VerificationInput {
        signer_address: signer_address(&sk),
        signature: sign_digest(&sk, &digest),
        threshold_age: 0,
        current_timestamp: 1_000_000_000,
        attestation,
        domain_separator: sep,
    };
    assert_eq!(
        verify_attestation(&input),
        Err(VerifyError::MalformedPayload)
    );
}

#[test]
fn oversized_birth_value_is_malformed() {
    let sk = signing_key();
    let sep = domain_separator(&fixture_domain()).unwrap();
    let mut attestation = fixture_attest(0);
    attestation.data[0] = 1;
    let digest = hash_message(&sep, &attestation);
    let input = VerificationInput {
        signer_address: signer_address(&sk),
        signature: sign_digest(&sk, &digest),
        threshold_age: 0,
        current_timestamp: 1_000_000_000,
        attestation,
        domain_separator: sep,
    };
    assert_eq!(
        verify_attestation(&input),
        Err(VerifyError::MalformedPayload)
    );
}

#[test]
fn decode_reads_big_endian_word() {
    assert_eq!(decode_date_of_birth(&word_u64(123_456_789)), Ok(123_456_789));
    assert_eq!(decode_date_of_birth(&word_u64(0)), Ok(0));
    assert_eq!(decode_date_of_birth(&word_u64(u64::MAX)), Ok(u64::MAX));
}

#[test]
fn decode_rejects_wrong_length() {
    assert_eq!(
        decode_date_of_birth(&vec![0u8; 31]),
        Err(VerifyError::MalformedPayload)
    );
    assert_eq!(
        decode_date_of_birth(&vec![0u8; 33]),
        Err(VerifyError::MalformedPayload)
    );
}

#[test]
fn decode_rejects_value_above_u64() {
    let mut w = vec![0u8; 32];
    w[23] = 1;
    assert_eq!(decode_date_of_birth(&w), Err(VerifyError::MalformedPayload));
}

#[test]
fn journal_encodes_in_fixed_order() {
    let j = Journal {
        signer_address: vec![0xaa; 20],
        threshold_age: 1,
        current_timestamp: 2,
        attestation_time: 3,
        recipient: vec![0xbb; 20],
        domain_separator: vec![0xcc; 32],
    };
    let bytes = encode_journal(&j);
    assert_eq!(bytes.len(), 96);
    let mut expected = vec![0xaa; 20];
    expected.extend_from_slice(&1u64.to_be_bytes());
    expected.extend_from_slice(&2u64.to_be_bytes());
    expected.extend_from_slice(&3u64.to_be_bytes());
    expected.extend_from_slice(&[0xbb; 20]);
    expected.extend_from_slice(&[0xcc; 32]);
    assert_eq!(bytes, expected);
}

#[test]
fn raw_recovery_byte_is_accepted() {
    let mut input = signed_input(0, 500_000_000, 1_000_000_000);
    input.signature.v -= 27;
    assert!(verify_attestation(&input).is_ok());
}

#[test]
fn chain_bound_recovery_byte_is_accepted() {
    // A chain-bound recovery byte for chain id 1: twice the chain id,
    // plus 35, plus the recovery id.
    let mut input = signed_input(0, 500_000_000, 1_000_000_000);
    input.signature.v = 35 + 2 + (input.signature.v - 27);
    assert!(verify_attestation(&input).is_ok());
}
