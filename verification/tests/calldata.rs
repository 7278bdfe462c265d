//! Call-data fixtures: the exact byte layout of both on-chain call
//! encodings, checked against reference vectors.

use zkattestify::calldata::encode_field_call;
use zkattestify::calldata::encode_verify_call;
use zkattestify::types::Journal;

#[test]
fn canonical_call_matches_reference_vector() {
    let journal = vec![0xaa; 96];
    let seal = vec![0xbb; 4];
    let cd = encode_verify_call(&journal, &seal);
    assert_eq!(
        hex::encode(&cd),
        "0ca77473000000000000000000000000000000000000000000000000000000000000004000000000000000000000000000000000000000000000000000000000000000c00000000000000000000000000000000000000000000000000000000000000060aaaaaaaaaaaaaaaaaaaaaaaaaaaaaaaaaaaaaaaaaaaaaaaaaaaaaaaaaaaaaaaaaaaaaaaaaaaaaaaaaaaaaaaaaaaaaaaaaaaaaaaaaaaaaaaaaaaaaaaaaaaaaaaaaaaaaaaaaaaaaaaaaaaaaaaaaaaaaaaaaaaaaaaaaaaaaaaaaaaaaaaaaaaaaaaa0000000000000000000000000000000000000000000000000000000000000004bbbbbbbb00000000000000000000000000000000000000000000000000000000"
    );
}

#[test]
fn canonical_call_pads_to_whole_words() {
    // A journal already word-aligned takes no padding; a one-byte seal
    // takes 31 zero bytes.
    let cd = encode_verify_call(&vec![0x11; 32], &vec![0x22; 1]);
    assert_eq!(cd.len(), 4 + 32 * 2 + 32 + 32 + 32 + 32);
    assert_eq!(cd[cd.len() - 32], 0x22);
    assert!(cd[cd.len() - 31..].iter().all(|b| *b == 0));
}

#[test]
fn field_call_matches_reference_vector() {
    let journal = Journal {
        signer_address: vec![0xaa; 20],
        threshold_age: 1,
        current_timestamp: 2,
        attestation_time: 3,
        recipient: vec![0xbb; 20],
        domain_separator: vec![0xcc; 32],
    };
    let seal = vec![0xdd; 5];
    let cd = encode_field_call(&journal, &seal);
    assert_eq!(
        hex::encode(&cd),
        "4c0a8a44000000000000000000000000aaaaaaaaaaaaaaaaaaaaaaaaaaaaaaaaaaaaaaaa000000000000000000000000000000000000000000000000000000000000000100000000000000000000000000000000000000000000000000000000000000020000000000000000000000000000000000000000000000000000000000000003000000000000000000000000bbbbbbbbbbbbbbbbbbbbbbbbbbbbbbbbbbbbbbbbcccccccccccccccccccccccccccccccccccccccccccccccccccccccccccccccc00000000000000000000000000000000000000000000000000000000000000e00000000000000000000000000000000000000000000000000000000000000005dddddddddd000000000000000000000000000000000000000000000000000000"
    );
}
