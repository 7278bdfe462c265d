//! The attestation verifier: the pure function the deterministic
//! execution environment runs. It recomputes the signing digest, recovers
//! the signer, decodes the embedded birth timestamp, applies the age
//! policy, and commits the journal — or rejects the input with no journal
//! at all.

use vstd::prelude::*;
use vstd::slice::slice_to_vec;

use crate::decode::decode_date_of_birth;
use crate::decode::decoded_dob;
use crate::errors::VerifyError;
use crate::hashing::digest_of;
use crate::hashing::hash_message;
use crate::recover::recover_address;
use crate::recover::recovered_address_of;
use crate::types::Journal;
use crate::types::VerificationInput;
use crate::words::be8_of_u64;
use crate::words::bytes_eq;
use crate::words::lemma_be8_injective;
use crate::words::push_bytes;
use crate::words::push_u64_be;

verus! {

/// The verdict the verifier must reach on input `i`, with the checks in
/// their fixed order: signature recovery, payload decoding, signer
/// comparison, then the age policy with a checked subtraction.
pub open spec fn verify_outcome(i: VerificationInput) -> Result<(), VerifyError> {
    let digest = digest_of(i.domain_separator@, i.attestation);
    match recovered_address_of(digest, i.signature) {
        None => Err(VerifyError::RecoveryFailed),
        Some(addr) => match decoded_dob(i.attestation.data@) {
            None => Err(VerifyError::MalformedPayload),
            Some(birth) => if addr != i.signer_address@ {
                Err(VerifyError::SignatureMismatch)
            } else if birth > i.current_timestamp {
                Err(VerifyError::BirthAfterCurrent)
            } else if i.current_timestamp - birth < i.threshold_age {
                Err(VerifyError::AgeBelowThreshold)
            } else {
                Ok(())
            },
        },
    }
}

/// The journal a successful run of `i` commits: the input's public
/// fields, in the exact order the on-chain decoder expects.
pub open spec fn journal_matches(i: VerificationInput, j: Journal) -> bool {
    &&& j.signer_address@ == i.signer_address@
    &&& j.threshold_age == i.threshold_age
    &&& j.current_timestamp == i.current_timestamp
    &&& j.attestation_time == i.attestation.time
    &&& j.recipient@ == i.attestation.recipient@
    &&& j.domain_separator@ == i.domain_separator@
}

/// Runs the verifier on one input.
///
/// Succeeds exactly when the digest recovers the claimed signer, the
/// payload decodes, the birth timestamp does not lie in the future, and
/// the implied age reaches the threshold; each rejection names its
/// condition, and a rejected input yields no journal.
pub fn verify_attestation(input: &VerificationInput) -> (r: Result<Journal, VerifyError>)
    requires
        input.wf(),
    ensures
        match r {
            Ok(j) => {
                &&& verify_outcome(*input) == Ok::<(), VerifyError>(())
                &&& journal_matches(*input, j)
                &&& j.wf()
            },
            Err(e) => verify_outcome(*input) == Err::<(), VerifyError>(e),
        },
{
    let digest = hash_message(&input.domain_separator, &input.attestation);
    let recovered = match recover_address(&digest, &input.signature) {
        Some(a) => a,
        None => {
            return Err(VerifyError::RecoveryFailed);
        },
    };
    let birth = match decode_date_of_birth(&input.attestation.data) {
        Ok(b) => b,
        Err(e) => {
            return Err(e);
        },
    };
    if !bytes_eq(recovered.as_slice(), input.signer_address.as_slice()) {
        return Err(VerifyError::SignatureMismatch);
    }
    if birth > input.current_timestamp {
        return Err(VerifyError::BirthAfterCurrent);
    }
    let age_in_seconds = input.current_timestamp - birth;
    if age_in_seconds < input.threshold_age {
        return Err(VerifyError::AgeBelowThreshold);
    }
    Ok(
        Journal {
            signer_address: slice_to_vec(input.signer_address.as_slice()),
            threshold_age: input.threshold_age,
            current_timestamp: input.current_timestamp,
            attestation_time: input.attestation.time,
            recipient: slice_to_vec(input.attestation.recipient.as_slice()),
            domain_separator: slice_to_vec(input.domain_separator.as_slice()),
        },
    )
}

/// The age policy sits exactly on the threshold: an input whose other
/// checks pass succeeds precisely when the age in seconds reaches
/// `threshold_age`, so an age equal to the threshold passes and an age
/// one second short is rejected as below the threshold.
pub proof fn lemma_age_boundary(i: VerificationInput, birth: u64)
    requires
        recovered_address_of(digest_of(i.domain_separator@, i.attestation), i.signature) == Some(
            i.signer_address@,
        ),
        decoded_dob(i.attestation.data@) == Some(birth),
        birth <= i.current_timestamp,
    ensures
        i.current_timestamp - birth >= i.threshold_age ==> verify_outcome(i) == Ok::<
            (),
            VerifyError,
        >(()),
        i.current_timestamp - birth < i.threshold_age ==> verify_outcome(i) == Err::<
            (),
            VerifyError,
        >(VerifyError::AgeBelowThreshold),
{
}

/// The byte encoding of a journal: each field in order, addresses as
/// their 20 bytes, the three timestamps as 8-byte big-endian integers,
/// the domain separator as its 32 bytes — 96 bytes in all.
pub open spec fn journal_bytes(j: Journal) -> Seq<u8>
    recommends
        j.wf(),
{
    j.signer_address@ + be8_of_u64(j.threshold_age) + be8_of_u64(j.current_timestamp)
        + be8_of_u64(j.attestation_time) + j.recipient@ + j.domain_separator@
}

/// Serialises a journal for the host/guest boundary and the on-chain
/// decoder.
pub fn encode_journal(j: &Journal) -> (r: Vec<u8>)
    requires
        j.wf(),
    ensures
        r@ == journal_bytes(*j),
        r@.len() == 96,
{
    let mut out: Vec<u8> = Vec::new();
    push_bytes(&mut out, j.signer_address.as_slice());
    push_u64_be(&mut out, j.threshold_age);
    push_u64_be(&mut out, j.current_timestamp);
    push_u64_be(&mut out, j.attestation_time);
    push_bytes(&mut out, j.recipient.as_slice());
    push_bytes(&mut out, j.domain_separator.as_slice());
    assert(out@ =~= journal_bytes(*j));
    out
}

/// The journal encoding is unambiguous: equal journal bytes come only
/// from journals equal in every field.
pub proof fn lemma_journal_bytes_injective(j1: Journal, j2: Journal)
    requires
        j1.wf(),
        j2.wf(),
        journal_bytes(j1) == journal_bytes(j2),
    ensures
        j1.signer_address@ == j2.signer_address@,
        j1.threshold_age == j2.threshold_age,
        j1.current_timestamp == j2.current_timestamp,
        j1.attestation_time == j2.attestation_time,
        j1.recipient@ == j2.recipient@,
        j1.domain_separator@ == j2.domain_separator@,
{
    let b1 = journal_bytes(j1);
    let b2 = journal_bytes(j2);
    assert(b1.len() == 96);
    assert(b2.len() == 96);
    assert(j1.signer_address@ =~= b1.subrange(0, 20));
    assert(j2.signer_address@ =~= b2.subrange(0, 20));
    assert(be8_of_u64(j1.threshold_age) =~= b1.subrange(20, 28));
    assert(be8_of_u64(j2.threshold_age) =~= b2.subrange(20, 28));
    lemma_be8_injective(j1.threshold_age, j2.threshold_age);
    assert(be8_of_u64(j1.current_timestamp) =~= b1.subrange(28, 36));
    assert(be8_of_u64(j2.current_timestamp) =~= b2.subrange(28, 36));
    lemma_be8_injective(j1.current_timestamp, j2.current_timestamp);
    assert(be8_of_u64(j1.attestation_time) =~= b1.subrange(36, 44));
    assert(be8_of_u64(j2.attestation_time) =~= b2.subrange(36, 44));
    lemma_be8_injective(j1.attestation_time, j2.attestation_time);
    assert(j1.recipient@ =~= b1.subrange(44, 64));
    assert(j2.recipient@ =~= b2.subrange(44, 64));
    assert(j1.domain_separator@ =~= b1.subrange(64, 96));
    assert(j2.domain_separator@ =~= b2.subrange(64, 96));
}

/// A successful run binds its journal to the domain separator it was
/// given: two successful runs over inputs that differ in their domain
/// separators commit journals that differ, field and byte alike. A
/// tampered separator can therefore never pass off the original journal
/// as its own.
pub proof fn lemma_journal_binds_domain_separator(
    i1: VerificationInput,
    i2: VerificationInput,
    j1: Journal,
    j2: Journal,
)
    requires
        journal_matches(i1, j1),
        journal_matches(i2, j2),
        j1.wf(),
        j2.wf(),
        i1.domain_separator@ != i2.domain_separator@,
    ensures
        j1.domain_separator@ != j2.domain_separator@,
        journal_bytes(j1) != journal_bytes(j2),
{
    if journal_bytes(j1) == journal_bytes(j2) {
        lemma_journal_bytes_injective(j1, j2);
    }
}

/// Verifying one input commits one journal: two successful runs of the
/// same input agree on every journal field and on the journal bytes.
pub proof fn lemma_verify_deterministic(i: VerificationInput, j1: Journal, j2: Journal)
    requires
        journal_matches(i, j1),
        journal_matches(i, j2),
        j1.wf(),
        j2.wf(),
    ensures
        journal_bytes(j1) == journal_bytes(j2),
{
    assert(journal_bytes(j1) =~= journal_bytes(j2));
}

} // verus!
