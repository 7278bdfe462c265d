//! The textual input records as they arrive from the attestation file:
//! every field still a string, exactly as the host's loader hands them
//! over. The conversions into typed values live in `parse`.

use vstd::prelude::*;

verus! {

/// The whole input record: a claimed signer and the signed payload.
#[derive(Debug)]
pub struct InputData {
    pub sig: SignatureData,
    pub signer: String,
}

/// The signed payload: domain, signature and message.
#[derive(Debug)]
pub struct SignatureData {
    pub domain: DomainData,
    pub signature: SignatureDetails,
    pub message: MessageData,
}

/// The signing domain, fields still textual: `chain_id` decimal,
/// `verifying_contract` hex.
#[derive(Debug)]
pub struct DomainData {
    pub name: String,
    pub version: String,
    pub chain_id: String,
    pub verifying_contract: String,
}

/// The signature: `r` and `s` as hex scalars, `v` the recovery byte.
#[derive(Debug)]
pub struct SignatureDetails {
    pub r: String,
    pub s: String,
    pub v: u8,
}

/// The attestation message, fields still textual: hashes and addresses
/// hex, timestamps decimal.
#[derive(Debug)]
pub struct MessageData {
    pub version: u16,
    pub schema: String,
    pub recipient: String,
    pub time: String,
    pub expiration_time: String,
    pub revocable: bool,
    pub ref_uid: String,
    pub data: String,
    pub salt: String,
}

} // verus!
