//! The canonical data model: one 20-byte address / 32-byte hash
//! representation shared by the hasher, the verifier and the pipeline.
//!
//! Byte strings are held as `Vec<u8>` with a well-formedness predicate
//! fixing their length; strings are held as their UTF-8 bytes.

use vstd::prelude::*;

verus! {

/// An EIP-712 signing domain.
///
/// `name` and `version` are the UTF-8 bytes of the domain strings; either
/// may be absent, in which case the domain separator computation rejects
/// the domain. `chain_id` is a 256-bit unsigned integer as a 32-byte
/// big-endian word; `verifying_contract` is a 20-byte address.
#[derive(Debug)]
pub struct Domain {
    pub name: Option<Vec<u8>>,
    pub version: Option<Vec<u8>>,
    pub chain_id: Vec<u8>,
    pub verifying_contract: Vec<u8>,
}

impl Domain {
    pub open spec fn wf(&self) -> bool {
        &&& self.chain_id@.len() == 32
        &&& self.verifying_contract@.len() == 20
    }
}

/// A signed attestation message: the fixed nine-field structure this
/// system supports. `data` carries the application payload, here an
/// ABI-encoded 256-bit word holding a birth timestamp.
#[derive(Debug, Clone)]
pub struct Attest {
    pub version: u16,
    pub schema: Vec<u8>,
    pub recipient: Vec<u8>,
    pub time: u64,
    pub expiration_time: u64,
    pub revocable: bool,
    pub ref_uid: Vec<u8>,
    pub data: Vec<u8>,
    pub salt: Vec<u8>,
}

impl Attest {
    pub open spec fn wf(&self) -> bool {
        &&& self.schema@.len() == 32
        &&& self.recipient@.len() == 20
        &&& self.ref_uid@.len() == 32
        &&& self.salt@.len() == 32
    }
}

/// An ECDSA signature in recoverable form: two 32-byte scalars and a
/// recovery byte.
#[derive(Debug, Clone)]
pub struct Signature {
    pub r: Vec<u8>,
    pub s: Vec<u8>,
    pub v: u8,
}

impl Signature {
    pub open spec fn wf(&self) -> bool {
        &&& self.r@.len() == 32
        &&& self.s@.len() == 32
    }
}

/// The tuple the attestation verifier consumes, assembled once by the
/// host in this exact field order.
#[derive(Debug)]
pub struct VerificationInput {
    pub signer_address: Vec<u8>,
    pub signature: Signature,
    pub threshold_age: u64,
    pub current_timestamp: u64,
    pub attestation: Attest,
    pub domain_separator: Vec<u8>,
}

impl VerificationInput {
    pub open spec fn wf(&self) -> bool {
        &&& self.signer_address@.len() == 20
        &&& self.signature.wf()
        &&& self.attestation.wf()
        &&& self.domain_separator@.len() == 32
    }
}

/// The public outputs a successful verification commits, in the exact
/// order the on-chain decoder expects.
#[derive(Debug, PartialEq, Eq)]
pub struct Journal {
    pub signer_address: Vec<u8>,
    pub threshold_age: u64,
    pub current_timestamp: u64,
    pub attestation_time: u64,
    pub recipient: Vec<u8>,
    pub domain_separator: Vec<u8>,
}

impl Journal {
    pub open spec fn wf(&self) -> bool {
        &&& self.signer_address@.len() == 20
        &&& self.recipient@.len() == 20
        &&& self.domain_separator@.len() == 32
    }
}

/// A date of birth as a Unix timestamp in seconds.
#[derive(Debug, Clone, Copy, PartialEq, Eq, Structural)]
pub struct DateOfBirth {
    pub unix_timestamp: u128,
}

} // verus!
