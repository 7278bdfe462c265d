//! ABI encoding of the on-chain verification call.
//!
//! The journal/seal pair leaves the pipeline for a contract; the call
//! data for both deployed interface shapes is built here: the canonical
//! `verifyAttestation(bytes journal, bytes seal)` form, and the earlier
//! variant that passes the journal's fields one by one plus the seal.

use vstd::prelude::*;
use vstd::slice::slice_subrange;
use vstd::string::StrSliceExecFns;
use vstd::utf8::encode_utf8;

use crate::hashing::keccak_of;
use crate::hashing::keccak256_bytes;
use crate::types::Journal;
use crate::words::push_addr_word;
use crate::words::push_bytes;
use crate::words::push_repeat;
use crate::words::push_u64_word;
use crate::words::repeat_byte;
use crate::words::word_of_addr;
use crate::words::word_of_u64;

verus! {

/// A byte string padded with zeros to a whole number of 32-byte words.
pub open spec fn abi_pad32(b: Seq<u8>) -> Seq<u8> {
    b + repeat_byte(0, ((32 - (b.len() % 32)) % 32) as nat)
}

/// The signature of the canonical call.
pub open spec fn call_sig_chars() -> Seq<char> {
    "verifyAttestation(bytes,bytes)"@
}

/// Its four-byte selector.
pub open spec fn call_selector() -> Seq<u8> {
    keccak_of(encode_utf8(call_sig_chars())).subrange(0, 4)
}

/// The call data of `verifyAttestation(bytes journal, bytes seal)`: the
/// selector, the two head words pointing at the tails, then each byte
/// string as a length word and its padded bytes.
pub open spec fn verify_call_data(j: Seq<u8>, s: Seq<u8>) -> Seq<u8> {
    call_selector() + word_of_u64(64) + word_of_u64((96 + abi_pad32(j).len()) as u64)
        + word_of_u64(j.len() as u64) + abi_pad32(j) + word_of_u64(s.len() as u64) + abi_pad32(s)
}

/// Encodes the canonical journal/seal call.
pub fn encode_verify_call(journal: &Vec<u8>, seal: &Vec<u8>) -> (r: Vec<u8>)
    requires
        journal@.len() < 0x10000000,
        seal@.len() < 0x10000000,
    ensures
        r@ == verify_call_data(journal@, seal@),
{
    let sig_str: &str = "verifyAttestation(bytes,bytes)";
    let h = keccak256_bytes(sig_str.as_bytes_vec().as_slice());
    assert(sig_str@ == call_sig_chars());
    let mut out: Vec<u8> = Vec::new();
    push_bytes(&mut out, slice_subrange(h.as_slice(), 0, 4));
    push_u64_word(&mut out, 64);
    let jpad: usize = (32 - (journal.len() % 32)) % 32;
    let jp_len: usize = journal.len() + jpad;
    push_u64_word(&mut out, (96 + jp_len) as u64);
    push_u64_word(&mut out, journal.len() as u64);
    push_bytes(&mut out, journal.as_slice());
    push_repeat(&mut out, 0, jpad);
    push_u64_word(&mut out, seal.len() as u64);
    push_bytes(&mut out, seal.as_slice());
    let spad: usize = (32 - (seal.len() % 32)) % 32;
    push_repeat(&mut out, 0, spad);
    assert(out@ =~= verify_call_data(journal@, seal@));
    out
}

/// The signature of the earlier, field-by-field call.
pub open spec fn field_call_sig_chars() -> Seq<char> {
    "verifyAttestation(address,uint64,uint64,uint64,address,bytes32,bytes)"@
}

/// Its four-byte selector.
pub open spec fn field_call_selector() -> Seq<u8> {
    keccak_of(encode_utf8(field_call_sig_chars())).subrange(0, 4)
}

/// The call data of the field-by-field variant: the selector, one word
/// per journal field in journal order, then the seal as an offset word,
/// a length word and its padded bytes.
pub open spec fn field_call_data(j: Journal, s: Seq<u8>) -> Seq<u8>
    recommends
        j.wf(),
{
    field_call_selector() + word_of_addr(j.signer_address@) + word_of_u64(j.threshold_age)
        + word_of_u64(j.current_timestamp) + word_of_u64(j.attestation_time) + word_of_addr(
        j.recipient@,
    ) + j.domain_separator@ + word_of_u64(224) + word_of_u64(s.len() as u64) + abi_pad32(s)
}

/// Encodes the field-by-field call for a committed journal.
pub fn encode_field_call(journal: &Journal, seal: &Vec<u8>) -> (r: Vec<u8>)
    requires
        journal.wf(),
        seal@.len() < 0x10000000,
    ensures
        r@ == field_call_data(*journal, seal@),
{
    let sig_str: &str = "verifyAttestation(address,uint64,uint64,uint64,address,bytes32,bytes)";
    let h = keccak256_bytes(sig_str.as_bytes_vec().as_slice());
    assert(sig_str@ == field_call_sig_chars());
    let mut out: Vec<u8> = Vec::new();
    push_bytes(&mut out, slice_subrange(h.as_slice(), 0, 4));
    push_addr_word(&mut out, journal.signer_address.as_slice());
    push_u64_word(&mut out, journal.threshold_age);
    push_u64_word(&mut out, journal.current_timestamp);
    push_u64_word(&mut out, journal.attestation_time);
    push_addr_word(&mut out, journal.recipient.as_slice());
    push_bytes(&mut out, journal.domain_separator.as_slice());
    push_u64_word(&mut out, 224);
    push_u64_word(&mut out, seal.len() as u64);
    push_bytes(&mut out, seal.as_slice());
    let spad: usize = (32 - (seal.len() % 32)) % 32;
    push_repeat(&mut out, 0, spad);
    assert(out@ =~= field_call_data(*journal, seal@));
    out
}

} // verus!
