//! Host/guest boundary scenarios: the input frame round-trips, and
//! malformed frames are rejected.

use zkattestify::boundary::decode_input;
use zkattestify::boundary::encode_input;
use zkattestify::types::Attest;
use zkattestify::types::Signature;
use zkattestify::types::VerificationInput;

fn fixture_input(data: Vec<u8>) -> VerificationInput {
    VerificationInput {
        signer_address: vec![0x44; 20],
        signature: Signature { r: vec![0x22; 32], s: vec![0x33; 32], v: 28 },
        threshold_age: 500_000_000,
        current_timestamp: 1_000_000_000,
        attestation: Attest {
            version: 7,
            schema: vec![0x05; 32],
            recipient: vec![0x66; 20],
            time: 1000,
            expiration_time: 2000,
            revocable: true,
            ref_uid: vec![0x07; 32],
            data,
            salt: vec![0x08; 32],
        },
        domain_separator: vec![0x09; 32],
    }
}

#[test]
fn input_frame_round_trips() {
    let input = fixture_input(vec![0xaa, 0xbb, 0xcc]);
    let frame = encode_input(&input);
    assert_eq!(frame.len(), 276 + 3);
    let back = decode_input(&frame).unwrap();
    assert_eq!(back.signer_address, input.signer_address);
    assert_eq!(back.signature.r, input.signature.r);
    assert_eq!(back.signature.s, input.signature.s);
    assert_eq!(back.signature.v, input.signature.v);
    assert_eq!(back.threshold_age, input.threshold_age);
    assert_eq!(back.current_timestamp, input.current_timestamp);
    assert_eq!(back.attestation.version, input.attestation.version);
    assert_eq!(back.attestation.schema, input.attestation.schema);
    assert_eq!(back.attestation.recipient, input.attestation.recipient);
    assert_eq!(back.attestation.time, input.attestation.time);
    assert_eq!(back.attestation.expiration_time, input.attestation.expiration_time);
    assert_eq!(back.attestation.revocable, input.attestation.revocable);
    assert_eq!(back.attestation.ref_uid, input.attestation.ref_uid);
    assert_eq!(back.attestation.data, input.attestation.data);
    assert_eq!(back.attestation.salt, input.attestation.salt);
    assert_eq!(back.domain_separator, input.domain_separator);
}

#[test]
fn empty_payload_round_trips() {
    let input = fixture_input(vec![]);
    let frame = encode_input(&input);
    assert_eq!(frame.len(), 276);
    let back = decode_input(&frame).unwrap();
    assert_eq!(back.attestation.data, Vec::<u8>::new());
}

#[test]
fn short_frame_is_rejected() {
    assert!(decode_input(&[0u8; 275]).is_none());
}

#[test]
fn truncated_frame_is_rejected() {
    let input = fixture_input(vec![0xaa, 0xbb, 0xcc]);
    let mut frame = encode_input(&input);
    frame.pop();
    assert!(decode_input(&frame).is_none());
}

#[test]
fn bad_length_prefix_is_rejected() {
    let input = fixture_input(vec![0xaa, 0xbb, 0xcc]);
    let mut frame = encode_input(&input);
    frame[211] ^= 1;
    assert!(decode_input(&frame).is_none());
}

#[test]
fn bad_flag_byte_is_rejected() {
    let input = fixture_input(vec![]);
    let mut frame = encode_input(&input);
    frame[171] = 2;
    assert!(decode_input(&frame).is_none());
}
