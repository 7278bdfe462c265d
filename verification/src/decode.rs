//! Decoding of the attestation payload: a single ABI-encoded 256-bit
//! unsigned integer word carrying the birth timestamp.

use vstd::prelude::*;

use crate::errors::VerifyError;
use crate::words::word_of_u64;

verus! {

/// A well-formed payload: exactly one 32-byte word whose value fits a
/// 64-bit timestamp, so its 24 high bytes are zero.
pub open spec fn is_u64_word(d: Seq<u8>) -> bool {
    &&& d.len() == 32
    &&& forall|i: int| 0 <= i < 24 ==> d[i] == 0
}

/// The value of the word's low 8 bytes, read big-endian.
pub open spec fn word_tail_value(d: Seq<u8>) -> u64
    recommends
        d.len() == 32,
{
    ((d[24] as u64) << 56u64) | ((d[25] as u64) << 48u64) | ((d[26] as u64) << 40u64)
        | ((d[27] as u64) << 32u64) | ((d[28] as u64) << 24u64) | ((d[29] as u64) << 16u64)
        | ((d[30] as u64) << 8u64) | (d[31] as u64)
}

/// The birth timestamp carried by a payload, if the payload is a single
/// well-formed word holding a 64-bit value.
pub open spec fn decoded_dob(d: Seq<u8>) -> Option<u64> {
    if is_u64_word(d) {
        Some(word_tail_value(d))
    } else {
        None
    }
}

/// Decodes `data` as a single 256-bit unsigned integer and returns it as
/// a 64-bit timestamp.
///
/// Fails exactly on payloads that are not one 32-byte word or whose
/// value exceeds the 64-bit range.
pub fn decode_date_of_birth(data: &Vec<u8>) -> (r: Result<u64, VerifyError>)
    ensures
        match r {
            Ok(v) => decoded_dob(data@) == Some(v),
            Err(e) => {
                &&& e == VerifyError::MalformedPayload
                &&& decoded_dob(data@) is None
            },
        },
{
    if data.len() != 32 {
        return Err(VerifyError::MalformedPayload);
    }
    let mut i: usize = 0;
    while i < 24
        invariant
            i <= 24,
            data@.len() == 32,
            forall|j: int| 0 <= j < i ==> data@[j] == 0,
        decreases 24 - i,
    {
        if data[i] != 0 {
            return Err(VerifyError::MalformedPayload);
        }
        i = i + 1;
    }
    let v: u64 = ((data[24] as u64) << 56u64) | ((data[25] as u64) << 48u64)
        | ((data[26] as u64) << 40u64) | ((data[27] as u64) << 32u64)
        | ((data[28] as u64) << 24u64) | ((data[29] as u64) << 16u64)
        | ((data[30] as u64) << 8u64) | (data[31] as u64);
    assert(v == word_tail_value(data@));
    Ok(v)
}

/// Decoding inverts encoding: the 256-bit word holding a 64-bit value
/// decodes back to exactly that value.
pub proof fn lemma_word_roundtrip(x: u64)
    ensures
        decoded_dob(word_of_u64(x)) == Some(x),
{
    let w = word_of_u64(x);
    assert(is_u64_word(w)) by {
        assert forall|i: int| 0 <= i < 24 implies w[i] == 0 by {
            assert(w[i] == crate::words::repeat_byte(0, 24)[i]);
        }
    }
    let b0 = w[24];
    let b1 = w[25];
    let b2 = w[26];
    let b3 = w[27];
    let b4 = w[28];
    let b5 = w[29];
    let b6 = w[30];
    let b7 = w[31];
    assert(b0 == ((x >> 56u64) & 0xff) as u8);
    assert(b1 == ((x >> 48u64) & 0xff) as u8);
    assert(b2 == ((x >> 40u64) & 0xff) as u8);
    assert(b3 == ((x >> 32u64) & 0xff) as u8);
    assert(b4 == ((x >> 24u64) & 0xff) as u8);
    assert(b5 == ((x >> 16u64) & 0xff) as u8);
    assert(b6 == ((x >> 8u64) & 0xff) as u8);
    assert(b7 == (x & 0xff) as u8);
    assert(((b0 as u64) << 56u64) | ((b1 as u64) << 48u64) | ((b2 as u64) << 40u64) | ((b3
        as u64) << 32u64) | ((b4 as u64) << 24u64) | ((b5 as u64) << 16u64) | ((b6 as u64)
        << 8u64) | (b7 as u64) == x) by (bit_vector)
        requires
            b0 == ((x >> 56u64) & 0xff) as u8,
            b1 == ((x >> 48u64) & 0xff) as u8,
            b2 == ((x >> 40u64) & 0xff) as u8,
            b3 == ((x >> 32u64) & 0xff) as u8,
            b4 == ((x >> 24u64) & 0xff) as u8,
            b5 == ((x >> 16u64) & 0xff) as u8,
            b6 == ((x >> 8u64) & 0xff) as u8,
            b7 == (x & 0xff) as u8,
    ;
}

} // verus!
