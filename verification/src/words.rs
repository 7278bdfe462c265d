//! Encoding of values as 32-byte big-endian words, the building block of
//! the typed-data hashing convention: integers are big-endian and
//! left-padded with zeros, addresses are left-padded to 32 bytes, booleans
//! are a single least-significant byte.

use vstd::prelude::*;

verus! {

/// The 8-byte big-endian form of `x`: most significant byte first.
pub open spec fn be8_of_u64(x: u64) -> Seq<u8> {
    seq![
        ((x >> 56u64) & 0xff) as u8,
        ((x >> 48u64) & 0xff) as u8,
        ((x >> 40u64) & 0xff) as u8,
        ((x >> 32u64) & 0xff) as u8,
        ((x >> 24u64) & 0xff) as u8,
        ((x >> 16u64) & 0xff) as u8,
        ((x >> 8u64) & 0xff) as u8,
        (x & 0xff) as u8,
    ]
}

/// A sequence of `n` copies of `b`.
pub open spec fn repeat_byte(b: u8, n: nat) -> Seq<u8> {
    Seq::new(n, |i: int| b)
}

/// A 256-bit unsigned integer word holding `x`.
pub open spec fn word_of_u64(x: u64) -> Seq<u8> {
    repeat_byte(0, 24) + be8_of_u64(x)
}

/// A boolean word: 31 zero bytes, then 1 or 0.
pub open spec fn word_of_bool(b: bool) -> Seq<u8> {
    repeat_byte(0, 31) + seq![if b { 1u8 } else { 0u8 }]
}

/// An address word: a 20-byte address left-padded with 12 zero bytes.
pub open spec fn word_of_addr(a: Seq<u8>) -> Seq<u8>
    recommends
        a.len() == 20,
{
    repeat_byte(0, 12) + a
}

/// Appends `n` copies of `b` to `out`.
pub fn push_repeat(out: &mut Vec<u8>, b: u8, n: usize)
    ensures
        final(out)@ == old(out)@ + repeat_byte(b, n as nat),
{
    let mut k: usize = 0;
    while k < n
        invariant
            k <= n,
            out@ == old(out)@ + repeat_byte(b, k as nat),
        decreases n - k,
    {
        out.push(b);
        k = k + 1;
        assert(out@ =~= old(out)@ + repeat_byte(b, k as nat));
    }
}

/// Appends all of `b` to `out`.
pub fn push_bytes(out: &mut Vec<u8>, b: &[u8])
    ensures
        final(out)@ == old(out)@ + b@,
{
    let mut k: usize = 0;
    let n: usize = b.len();
    while k < n
        invariant
            k <= n,
            n == b@.len(),
            out@ == old(out)@ + b@.subrange(0, k as int),
        decreases n - k,
    {
        out.push(b[k]);
        k = k + 1;
        assert(out@ =~= old(out)@ + b@.subrange(0, k as int));
    }
    assert(out@ =~= old(out)@ + b@);
}

/// Appends the 8-byte big-endian form of `x` to `out`.
pub fn push_u64_be(out: &mut Vec<u8>, x: u64)
    ensures
        final(out)@ == old(out)@ + be8_of_u64(x),
{
    out.push(((x >> 56u64) & 0xff) as u8);
    out.push(((x >> 48u64) & 0xff) as u8);
    out.push(((x >> 40u64) & 0xff) as u8);
    out.push(((x >> 32u64) & 0xff) as u8);
    out.push(((x >> 24u64) & 0xff) as u8);
    out.push(((x >> 16u64) & 0xff) as u8);
    out.push(((x >> 8u64) & 0xff) as u8);
    out.push((x & 0xff) as u8);
    assert(out@ =~= old(out)@ + be8_of_u64(x));
}

/// Appends the 256-bit unsigned integer word holding `x`.
pub fn push_u64_word(out: &mut Vec<u8>, x: u64)
    ensures
        final(out)@ == old(out)@ + word_of_u64(x),
{
    push_repeat(out, 0, 24);
    push_u64_be(out, x);
    assert(out@ =~= old(out)@ + word_of_u64(x));
}

/// Appends the boolean word for `b`.
pub fn push_bool_word(out: &mut Vec<u8>, b: bool)
    ensures
        final(out)@ == old(out)@ + word_of_bool(b),
{
    push_repeat(out, 0, 31);
    out.push(if b { 1u8 } else { 0u8 });
    assert(out@ =~= old(out)@ + word_of_bool(b));
}

/// Appends the address word for the 20-byte address `a`.
pub fn push_addr_word(out: &mut Vec<u8>, a: &[u8])
    requires
        a@.len() == 20,
    ensures
        final(out)@ == old(out)@ + word_of_addr(a@),
{
    push_repeat(out, 0, 12);
    push_bytes(out, a);
    assert(out@ =~= old(out)@ + word_of_addr(a@));
}

/// Recovering a `u64` from its big-endian bytes is unambiguous: equal
/// byte forms come only from equal values.
pub proof fn lemma_be8_injective(x: u64, y: u64)
    requires
        be8_of_u64(x) == be8_of_u64(y),
    ensures
        x == y,
{
    assert(be8_of_u64(x)[0] == be8_of_u64(y)[0]);
    assert(be8_of_u64(x)[1] == be8_of_u64(y)[1]);
    assert(be8_of_u64(x)[2] == be8_of_u64(y)[2]);
    assert(be8_of_u64(x)[3] == be8_of_u64(y)[3]);
    assert(be8_of_u64(x)[4] == be8_of_u64(y)[4]);
    assert(be8_of_u64(x)[5] == be8_of_u64(y)[5]);
    assert(be8_of_u64(x)[6] == be8_of_u64(y)[6]);
    assert(be8_of_u64(x)[7] == be8_of_u64(y)[7]);
    assert(x == y) by (bit_vector)
        requires
            ((x >> 56u64) & 0xff) as u8 == ((y >> 56u64) & 0xff) as u8,
            ((x >> 48u64) & 0xff) as u8 == ((y >> 48u64) & 0xff) as u8,
            ((x >> 40u64) & 0xff) as u8 == ((y >> 40u64) & 0xff) as u8,
            ((x >> 32u64) & 0xff) as u8 == ((y >> 32u64) & 0xff) as u8,
            ((x >> 24u64) & 0xff) as u8 == ((y >> 24u64) & 0xff) as u8,
            ((x >> 16u64) & 0xff) as u8 == ((y >> 16u64) & 0xff) as u8,
            ((x >> 8u64) & 0xff) as u8 == ((y >> 8u64) & 0xff) as u8,
            (x & 0xff) as u8 == (y & 0xff) as u8,
    ;
}

/// Compares two byte strings for equality.
pub fn bytes_eq(a: &[u8], b: &[u8]) -> (r: bool)
    ensures
        r == (a@ == b@),
{
    if a.len() != b.len() {
        return false;
    }
    let n: usize = a.len();
    let mut k: usize = 0;
    while k < n
        invariant
            k <= n,
            n == a@.len(),
            n == b@.len(),
            forall|j: int| 0 <= j < k ==> a@[j] == b@[j],
        decreases n - k,
    {
        if a[k] != b[k] {
            return false;
        }
        k = k + 1;
    }
    assert(a@ =~= b@);
    true
}

/// The 2-byte big-endian form of `x`.
pub open spec fn be2_of_u16(x: u16) -> Seq<u8> {
    seq![((x >> 8u16) & 0xff) as u8, (x & 0xff) as u8]
}

/// The value whose 8-byte big-endian form is `d`.
pub open spec fn be8_value(d: Seq<u8>) -> u64
    recommends
        d.len() == 8,
{
    ((d[0] as u64) << 56u64) | ((d[1] as u64) << 48u64) | ((d[2] as u64) << 40u64) | ((d[3]
        as u64) << 32u64) | ((d[4] as u64) << 24u64) | ((d[5] as u64) << 16u64) | ((d[6]
        as u64) << 8u64) | (d[7] as u64)
}

/// The value whose 2-byte big-endian form is `d`.
pub open spec fn be2_value(d: Seq<u8>) -> u16
    recommends
        d.len() == 2,
{
    (((d[0] as u16) << 8u16) | (d[1] as u16)) as u16
}

/// Appends the 2-byte big-endian form of `x` to `out`.
pub fn push_u16_be(out: &mut Vec<u8>, x: u16)
    ensures
        final(out)@ == old(out)@ + be2_of_u16(x),
{
    out.push(((x >> 8u16) & 0xff) as u8);
    out.push((x & 0xff) as u8);
    assert(out@ =~= old(out)@ + be2_of_u16(x));
}

/// Reading eight bytes back gives the value they encode, and encoding
/// that value gives the same eight bytes.
pub proof fn lemma_be8_value_roundtrip(d: Seq<u8>)
    requires
        d.len() == 8,
    ensures
        be8_of_u64(be8_value(d)) =~= d,
{
    let b0 = d[0];
    let b1 = d[1];
    let b2 = d[2];
    let b3 = d[3];
    let b4 = d[4];
    let b5 = d[5];
    let b6 = d[6];
    let b7 = d[7];
    let r = be8_value(d);
    assert(((r >> 56u64) & 0xff) as u8 == b0 && ((r >> 48u64) & 0xff) as u8 == b1 && ((r
        >> 40u64) & 0xff) as u8 == b2 && ((r >> 32u64) & 0xff) as u8 == b3 && ((r >> 24u64)
        & 0xff) as u8 == b4 && ((r >> 16u64) & 0xff) as u8 == b5 && ((r >> 8u64) & 0xff) as u8
        == b6 && (r & 0xff) as u8 == b7) by (bit_vector)
        requires
            r == ((b0 as u64) << 56u64) | ((b1 as u64) << 48u64) | ((b2 as u64) << 40u64) | ((
            b3 as u64) << 32u64) | ((b4 as u64) << 24u64) | ((b5 as u64) << 16u64) | ((b6
                as u64) << 8u64) | (b7 as u64),
    ;
}

/// The same for two bytes.
pub proof fn lemma_be2_value_roundtrip(d: Seq<u8>)
    requires
        d.len() == 2,
    ensures
        be2_of_u16(be2_value(d)) =~= d,
{
    let b0 = d[0];
    let b1 = d[1];
    let r = be2_value(d);
    assert(((r >> 8u16) & 0xff) as u8 == b0 && (r & 0xff) as u8 == b1) by (bit_vector)
        requires
            r == (((b0 as u16) << 8u16) | (b1 as u16)) as u16,
    ;
}

/// The same, for the 2-byte form.
pub proof fn lemma_be2_injective(x: u16, y: u16)
    requires
        be2_of_u16(x) == be2_of_u16(y),
    ensures
        x == y,
{
    assert(be2_of_u16(x)[0] == be2_of_u16(y)[0]);
    assert(be2_of_u16(x)[1] == be2_of_u16(y)[1]);
    assert(x == y) by (bit_vector)
        requires
            ((x >> 8u16) & 0xff) as u8 == ((y >> 8u16) & 0xff) as u8,
            (x & 0xff) as u8 == (y & 0xff) as u8,
    ;
}

/// Reads a 64-bit big-endian value from eight bytes.
pub fn read_u64_be(b: &[u8]) -> (r: u64)
    requires
        b@.len() == 8,
    ensures
        r == be8_value(b@),
        be8_of_u64(r) == b@,
{
    let r = ((b[0] as u64) << 56u64) | ((b[1] as u64) << 48u64) | ((b[2] as u64) << 40u64) | ((
        b[3] as u64) << 32u64) | ((b[4] as u64) << 24u64) | ((b[5] as u64) << 16u64) | ((b[6]
        as u64) << 8u64) | (b[7] as u64);
    proof {
        lemma_be8_value_roundtrip(b@);
    }
    r
}

/// Reads a 16-bit big-endian value from two bytes.
pub fn read_u16_be(b: &[u8]) -> (r: u16)
    requires
        b@.len() == 2,
    ensures
        r == be2_value(b@),
        be2_of_u16(r) == b@,
{
    let r = ((b[0] as u16) << 8u16) | (b[1] as u16);
    proof {
        lemma_be2_value_roundtrip(b@);
    }
    r
}

} // verus!
