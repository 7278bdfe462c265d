//! Error taxonomy of the library.
//!
//! Every failure of the verified core is a value of one of these enums;
//! verified functions never panic.

use vstd::prelude::*;

verus! {

/// Why a verification attempt was rejected.
///
/// Any of these aborts the whole proving attempt: a rejected attestation
/// produces no journal.
#[derive(Debug, Clone, Copy, PartialEq, Eq, Structural)]
pub enum VerifyError {
    /// The signature's scalars or recovery byte admit no recovered key.
    RecoveryFailed,
    /// `attestation.data` is not a single 256-bit word holding a value
    /// that fits the 64-bit birth timestamp.
    MalformedPayload,
    /// The recovered signing address differs from the claimed signer.
    SignatureMismatch,
    /// The embedded birth timestamp lies after `current_timestamp`; the
    /// age subtraction is checked rather than allowed to wrap.
    BirthAfterCurrent,
    /// The computed age in seconds is below `threshold_age`.
    AgeBelowThreshold,
}

/// Why a domain is rejected by the domain-separator computation.
#[derive(Debug, Clone, Copy, PartialEq, Eq, Structural)]
pub enum DomainError {
    /// The domain's `name` or `version` field is absent.
    MissingField,
}

/// Why a textual input field could not be turned into a typed value.
#[derive(Debug, Clone, Copy, PartialEq, Eq, Structural)]
pub enum ParseError {
    /// A hex field holds a character outside `0-9a-fA-F` or has the
    /// wrong number of digits.
    InvalidHex,
    /// A decimal field is empty or holds a non-digit character.
    InvalidDecimal,
    /// A decimal field's value does not fit the target width.
    ValueTooLarge,
}

} // verus!
