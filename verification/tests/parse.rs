//! Parsing scenarios: hex and decimal fields, the error for each kind of
//! malformed input, and assembling a whole verification input from a
//! textual record.

use zkattestify::errors::ParseError;
use zkattestify::parse::build_verification_input;
use zkattestify::parse::parse_hex_bytes;
use zkattestify::parse::parse_hex_fixed;
use zkattestify::parse::parse_u64_dec;
use zkattestify::structs::DomainData;
use zkattestify::structs::InputData;
use zkattestify::structs::MessageData;
use zkattestify::structs::SignatureData;
use zkattestify::structs::SignatureDetails;

#[test]
fn hex_with_prefix_decodes() {
    assert_eq!(parse_hex_bytes("0x1234"), Ok(vec![0x12, 0x34]));
    assert_eq!(parse_hex_bytes("0Xab"), Ok(vec![0xab]));
}

#[test]
fn hex_without_prefix_decodes() {
    assert_eq!(parse_hex_bytes("DEadbe"), Ok(vec![0xde, 0xad, 0xbe]));
    assert_eq!(parse_hex_bytes(""), Ok(vec![]));
}

#[test]
fn hex_odd_length_is_rejected() {
    assert_eq!(parse_hex_bytes("0x123"), Err(ParseError::InvalidHex));
}

#[test]
fn hex_bad_character_is_rejected() {
    assert_eq!(parse_hex_bytes("0x12g4"), Err(ParseError::InvalidHex));
}

#[test]
fn hex_fixed_checks_length() {
    assert_eq!(parse_hex_fixed("0x1122", 2), Ok(vec![0x11, 0x22]));
    assert_eq!(parse_hex_fixed("0x1122", 3), Err(ParseError::InvalidHex));
}

#[test]
fn decimal_parses_to_u64() {
    assert_eq!(parse_u64_dec("0"), Ok(0));
    assert_eq!(parse_u64_dec("1000"), Ok(1000));
    assert_eq!(parse_u64_dec("18446744073709551615"), Ok(u64::MAX));
}

#[test]
fn decimal_overflow_is_rejected() {
    assert_eq!(
        parse_u64_dec("18446744073709551616"),
        Err(ParseError::ValueTooLarge)
    );
}

#[test]
fn decimal_empty_or_bad_digit_is_rejected() {
    assert_eq!(parse_u64_dec(""), Err(ParseError::InvalidDecimal));
    assert_eq!(parse_u64_dec("12a"), Err(ParseError::InvalidDecimal));
    assert_eq!(parse_u64_dec("-5"), Err(ParseError::InvalidDecimal));
}

fn fixture_record() -> InputData {
    InputData {
        sig: SignatureData {
            domain: DomainData {
                name: String::from("Attest"),
                version: String::from("1"),
                chain_id: String::from("1"),
                verifying_contract: String::from("0x1111111111111111111111111111111111111111"),
            },
            signature: SignatureDetails {
                r: String::from(
                    "0x2222222222222222222222222222222222222222222222222222222222222222",
                ),
                s: String::from(
                    "0x3333333333333333333333333333333333333333333333333333333333333333",
                ),
                v: 27,
            },
            message: MessageData {
                version: 1,
                schema: String::from(
                    "0x0000000000000000000000000000000000000000000000000000000000000000",
                ),
                recipient: String::from("0x2222222222222222222222222222222222222222"),
                time: String::from("1000"),
                expiration_time: String::from("0"),
                revocable: true,
                ref_uid: String::from(
                    "0x0000000000000000000000000000000000000000000000000000000000000000",
                ),
                data: String::from(
                    "0x0000000000000000000000000000000000000000000000000000000000000000",
                ),
                salt: String::from(
                    "0x0000000000000000000000000000000000000000000000000000000000000000",
                ),
            },
        },
        signer: String::from("0x4444444444444444444444444444444444444444"),
    }
}

#[test]
fn whole_record_assembles_verification_input() {
    let vi = build_verification_input(&fixture_record(), 500_000_000, 1_000_000_000).unwrap();
    assert_eq!(vi.signer_address, vec![0x44; 20]);
    assert_eq!(vi.signature.r, vec![0x22; 32]);
    assert_eq!(vi.signature.s, vec![0x33; 32]);
    assert_eq!(vi.signature.v, 27);
    assert_eq!(vi.threshold_age, 500_000_000);
    assert_eq!(vi.current_timestamp, 1_000_000_000);
    assert_eq!(vi.attestation.version, 1);
    assert_eq!(vi.attestation.time, 1000);
    assert_eq!(vi.attestation.recipient, vec![0x22; 20]);
    assert!(vi.attestation.revocable);
    // The separator matches the one computed from the typed fixture
    // domain, checked against its reference vector elsewhere.
    assert_eq!(
        hex::encode(&vi.domain_separator),
        "0aef843827051d9aa562443a579d772d24e7a9f9f264e3d7a3f62f9f5e4c5507"
    );
}

#[test]
fn record_with_bad_contract_is_rejected() {
    let mut rec = fixture_record();
    rec.sig.domain.verifying_contract = String::from("0x1111");
    assert_eq!(
        build_verification_input(&rec, 0, 0).unwrap_err(),
        ParseError::InvalidHex
    );
}

#[test]
fn record_with_bad_chain_id_is_rejected() {
    let mut rec = fixture_record();
    rec.sig.domain.chain_id = String::from("one");
    assert_eq!(
        build_verification_input(&rec, 0, 0).unwrap_err(),
        ParseError::InvalidDecimal
    );
}

#[test]
fn record_with_huge_time_is_rejected() {
    let mut rec = fixture_record();
    rec.sig.message.time = String::from("99999999999999999999999999");
    assert_eq!(
        build_verification_input(&rec, 0, 0).unwrap_err(),
        ParseError::ValueTooLarge
    );
}

#[test]
fn record_with_bad_signer_is_rejected() {
    let mut rec = fixture_record();
    rec.signer = String::from("0x44");
    assert_eq!(
        build_verification_input(&rec, 0, 0).unwrap_err(),
        ParseError::InvalidHex
    );
}
