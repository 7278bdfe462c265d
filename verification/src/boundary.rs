//! The host/guest boundary: the verifier's input as one byte frame, each
//! field in the fixed order the program reads, with the variable-length
//! payload length-prefixed. The absent execution backend carries its own
//! wire format; this frame is the library's, stated byte for byte, with
//! the decoder proved to accept exactly the encoder's output.

use vstd::prelude::*;
use vstd::slice::slice_subrange;
use vstd::slice::slice_to_vec;

use crate::types::Attest;
use crate::types::Signature;
use crate::types::VerificationInput;
use crate::words::be2_of_u16;
use crate::words::be8_of_u64;
use crate::words::lemma_be8_injective;
use crate::words::push_bytes;
use crate::words::push_u16_be;
use crate::words::push_u64_be;
use crate::words::read_u16_be;
use crate::words::read_u64_be;
use crate::words::be8_value;

verus! {

/// The byte frame of a verifier input: signer, signature scalars and
/// recovery byte, the two policy timestamps, the attestation's fields in
/// order with `data` length-prefixed, then the domain separator —
/// 276 bytes plus the payload.
pub open spec fn input_bytes(i: VerificationInput) -> Seq<u8>
    recommends
        i.wf(),
{
    i.signer_address@ + i.signature.r@ + i.signature.s@ + seq![i.signature.v] + be8_of_u64(
        i.threshold_age,
    ) + be8_of_u64(i.current_timestamp) + be2_of_u16(i.attestation.version)
        + i.attestation.schema@ + i.attestation.recipient@ + be8_of_u64(i.attestation.time)
        + be8_of_u64(i.attestation.expiration_time) + seq![
        if i.attestation.revocable {
            1u8
        } else {
            0u8
        },
    ] + i.attestation.ref_uid@ + be8_of_u64(i.attestation.data@.len() as u64)
        + i.attestation.data@ + i.attestation.salt@ + i.domain_separator@
}

/// A byte string shaped like an input frame: long enough, its length
/// prefix accounting for every byte beyond the fixed 276, and its
/// revocable byte a plain flag.
pub open spec fn is_input_frame(b: Seq<u8>) -> bool {
    &&& b.len() >= 276
    &&& be8_value(b.subrange(204, 212)) as int == b.len() - 276
    &&& (b[171] == 0 || b[171] == 1)
}

/// Serialises a verifier input for the host/guest boundary.
pub fn encode_input(i: &VerificationInput) -> (r: Vec<u8>)
    requires
        i.wf(),
    ensures
        r@ == input_bytes(*i),
        is_input_frame(r@),
{
    let mut out: Vec<u8> = Vec::new();
    push_bytes(&mut out, i.signer_address.as_slice());
    push_bytes(&mut out, i.signature.r.as_slice());
    push_bytes(&mut out, i.signature.s.as_slice());
    out.push(i.signature.v);
    push_u64_be(&mut out, i.threshold_age);
    push_u64_be(&mut out, i.current_timestamp);
    push_u16_be(&mut out, i.attestation.version);
    push_bytes(&mut out, i.attestation.schema.as_slice());
    push_bytes(&mut out, i.attestation.recipient.as_slice());
    push_u64_be(&mut out, i.attestation.time);
    push_u64_be(&mut out, i.attestation.expiration_time);
    out.push(if i.attestation.revocable { 1 } else { 0 });
    push_bytes(&mut out, i.attestation.ref_uid.as_slice());
    push_u64_be(&mut out, i.attestation.data.len() as u64);
    push_bytes(&mut out, i.attestation.data.as_slice());
    push_bytes(&mut out, i.attestation.salt.as_slice());
    push_bytes(&mut out, i.domain_separator.as_slice());
    assert(out@ =~= input_bytes(*i));
    proof {
        let b = out@;
        assert(b.subrange(204, 212) =~= be8_of_u64(i.attestation.data@.len() as u64));
        crate::words::lemma_be8_value_roundtrip(b.subrange(204, 212));
        lemma_be8_injective(
            be8_value(b.subrange(204, 212)),
            i.attestation.data@.len() as u64,
        );
        assert(b[171] == (if i.attestation.revocable {
            1u8
        } else {
            0u8
        }));
    }
    out
}

/// Reads a verifier input back from a byte frame.
///
/// Accepts exactly the well-shaped frames and returns the one input that
/// encodes to the given bytes; anything else is rejected.
pub fn decode_input(b: &[u8]) -> (r: Option<VerificationInput>)
    ensures
        match r {
            Some(vi) => {
                &&& is_input_frame(b@)
                &&& vi.wf()
                &&& b@ == input_bytes(vi)
            },
            None => !is_input_frame(b@),
        },
{
    if b.len() < 276 {
        return None;
    }
    let data_len_words = slice_subrange(b, 204, 212);
    let data_len = read_u64_be(data_len_words);
    let tail_len: usize = b.len() - 276;
    if data_len != tail_len as u64 {
        return None;
    }
    let revocable_byte = b[171];
    if revocable_byte > 1 {
        return None;
    }
    let signer_address = slice_to_vec(slice_subrange(b, 0, 20));
    let signature = Signature {
        r: slice_to_vec(slice_subrange(b, 20, 52)),
        s: slice_to_vec(slice_subrange(b, 52, 84)),
        v: b[84],
    };
    let threshold_age = read_u64_be(slice_subrange(b, 85, 93));
    let current_timestamp = read_u64_be(slice_subrange(b, 93, 101));
    let version = read_u16_be(slice_subrange(b, 101, 103));
    let schema = slice_to_vec(slice_subrange(b, 103, 135));
    let recipient = slice_to_vec(slice_subrange(b, 135, 155));
    let time = read_u64_be(slice_subrange(b, 155, 163));
    let expiration_time = read_u64_be(slice_subrange(b, 163, 171));
    let revocable = revocable_byte == 1;
    let ref_uid = slice_to_vec(slice_subrange(b, 172, 204));
    let data = slice_to_vec(slice_subrange(b, 212, 212 + tail_len));
    let salt = slice_to_vec(slice_subrange(b, 212 + tail_len, 244 + tail_len));
    let domain_separator = slice_to_vec(slice_subrange(b, 244 + tail_len, 276 + tail_len));
    let vi = VerificationInput {
        signer_address,
        signature,
        threshold_age,
        current_timestamp,
        attestation: Attest {
            version,
            schema,
            recipient,
            time,
            expiration_time,
            revocable,
            ref_uid,
            salt,
            data,
        },
        domain_separator,
    };
    assert(b@ =~= input_bytes(vi));
    Some(vi)
}

/// The frame is unambiguous: two well-formed inputs with one frame agree
/// on every field.
pub proof fn lemma_input_bytes_injective(i1: VerificationInput, i2: VerificationInput)
    requires
        i1.wf(),
        i2.wf(),
        input_bytes(i1) == input_bytes(i2),
    ensures
        i1.signer_address@ == i2.signer_address@,
        i1.signature.r@ == i2.signature.r@,
        i1.signature.s@ == i2.signature.s@,
        i1.signature.v == i2.signature.v,
        i1.threshold_age == i2.threshold_age,
        i1.current_timestamp == i2.current_timestamp,
        i1.attestation.version == i2.attestation.version,
        i1.attestation.schema@ == i2.attestation.schema@,
        i1.attestation.recipient@ == i2.attestation.recipient@,
        i1.attestation.time == i2.attestation.time,
        i1.attestation.expiration_time == i2.attestation.expiration_time,
        i1.attestation.revocable == i2.attestation.revocable,
        i1.attestation.ref_uid@ == i2.attestation.ref_uid@,
        i1.attestation.data@ == i2.attestation.data@,
        i1.attestation.salt@ == i2.attestation.salt@,
        i1.domain_separator@ == i2.domain_separator@,
{
    let b1 = input_bytes(i1);
    let b2 = input_bytes(i2);
    let l1 = i1.attestation.data@.len() as int;
    let l2 = i2.attestation.data@.len() as int;
    assert(b1.len() == 276 + l1);
    assert(b2.len() == 276 + l2);
    let n = l1;
    assert(i1.signer_address@ =~= b1.subrange(0, 20));
    assert(i2.signer_address@ =~= b2.subrange(0, 20));
    assert(i1.signature.r@ =~= b1.subrange(20, 52));
    assert(i2.signature.r@ =~= b2.subrange(20, 52));
    assert(i1.signature.s@ =~= b1.subrange(52, 84));
    assert(i2.signature.s@ =~= b2.subrange(52, 84));
    assert(i1.signature.v == b1[84]);
    assert(i2.signature.v == b2[84]);
    assert(be8_of_u64(i1.threshold_age) =~= b1.subrange(85, 93));
    assert(be8_of_u64(i2.threshold_age) =~= b2.subrange(85, 93));
    lemma_be8_injective(i1.threshold_age, i2.threshold_age);
    assert(be8_of_u64(i1.current_timestamp) =~= b1.subrange(93, 101));
    assert(be8_of_u64(i2.current_timestamp) =~= b2.subrange(93, 101));
    lemma_be8_injective(i1.current_timestamp, i2.current_timestamp);
    assert(be2_of_u16(i1.attestation.version) =~= b1.subrange(101, 103));
    assert(be2_of_u16(i2.attestation.version) =~= b2.subrange(101, 103));
    crate::words::lemma_be2_injective(i1.attestation.version, i2.attestation.version);
    assert(i1.attestation.schema@ =~= b1.subrange(103, 135));
    assert(i2.attestation.schema@ =~= b2.subrange(103, 135));
    assert(i1.attestation.recipient@ =~= b1.subrange(135, 155));
    assert(i2.attestation.recipient@ =~= b2.subrange(135, 155));
    assert(be8_of_u64(i1.attestation.time) =~= b1.subrange(155, 163));
    assert(be8_of_u64(i2.attestation.time) =~= b2.subrange(155, 163));
    lemma_be8_injective(i1.attestation.time, i2.attestation.time);
    assert(be8_of_u64(i1.attestation.expiration_time) =~= b1.subrange(163, 171));
    assert(be8_of_u64(i2.attestation.expiration_time) =~= b2.subrange(163, 171));
    lemma_be8_injective(i1.attestation.expiration_time, i2.attestation.expiration_time);
    assert(b1[171] == (if i1.attestation.revocable {
        1u8
    } else {
        0u8
    }));
    assert(b2[171] == (if i2.attestation.revocable {
        1u8
    } else {
        0u8
    }));
    assert(i1.attestation.ref_uid@ =~= b1.subrange(172, 204));
    assert(i2.attestation.ref_uid@ =~= b2.subrange(172, 204));
    assert(be8_of_u64(l1 as u64) =~= b1.subrange(204, 212));
    assert(be8_of_u64(l2 as u64) =~= b2.subrange(204, 212));
    lemma_be8_injective(l1 as u64, l2 as u64);
    assert(l1 == l2);
    assert(i1.attestation.data@ =~= b1.subrange(212, 212 + n));
    assert(i2.attestation.data@ =~= b2.subrange(212, 212 + n));
    assert(i1.attestation.salt@ =~= b1.subrange(212 + n, 244 + n));
    assert(i2.attestation.salt@ =~= b2.subrange(212 + n, 244 + n));
    assert(i1.domain_separator@ =~= b1.subrange(244 + n, 276 + n));
    assert(i2.domain_separator@ =~= b2.subrange(244 + n, 276 + n));
}

} // verus!
