//! ECDSA public-key recovery over secp256k1 and the derivation of the
//! 20-byte signing address from the recovered key.
//!
//! Recovery itself comes from an outside crate; its result is named by an
//! uninterpreted spec function of the digest, the two scalars and the
//! recovery id, and the address derivation on top of it is verified.

use vstd::prelude::*;
use vstd::slice::slice_subrange;
use vstd::slice::slice_to_vec;

use crate::hashing::keccak_of;
use crate::hashing::keccak256_bytes;
use crate::types::Signature;

verus! {

/// What ECDSA recovery returns for a digest, signature scalars and a
/// recovery id: the recovered public key's uncompressed SEC1 bytes, or
/// nothing when the signature admits no key. Only `recover_of` below
/// reads it; nothing else is assumed of it.
pub uninterp spec fn recover_raw(digest: Seq<u8>, r: Seq<u8>, s: Seq<u8>, recid: u8) -> Option<
    Seq<u8>,
>;

/// The recovered public key as a 65-byte uncompressed SEC1 encoding
/// (`0x04`, then the 32-byte x and y coordinates).
pub open spec fn recover_of(digest: Seq<u8>, r: Seq<u8>, s: Seq<u8>, recid: u8) -> Option<
    Seq<u8>,
> {
    match recover_raw(digest, r, s, recid) {
        Some(pk) => Some(Seq::new(65, |i: int| pk[i])),
        None => None,
    }
}

/// Relies on `k256::ecdsa`: `RecoveryId::from_byte` accepts exactly the
/// bytes 0 through 3, `Signature::from_slice` accepts exactly 64 bytes
/// holding two in-range scalars, and `VerifyingKey::recover_from_prehash`
/// is a pure function of the digest, the scalars and the recovery id.
/// On success the key's uncompressed SEC1 encoding has 65 bytes, so the
/// raw named result and its fixed-length reading agree.
#[verifier::external_body]
fn recover_pubkey(digest: &[u8], r: &[u8], s: &[u8], recid: u8) -> (res: Option<Vec<u8>>)
    requires
        digest@.len() == 32,
        r@.len() == 32,
        s@.len() == 32,
    ensures
        match res {
            Some(pk) => {
                &&& recover_raw(digest@, r@, s@, recid) == Some(pk@)
                &&& recover_of(digest@, r@, s@, recid) == Some(pk@)
            },
            None => recover_raw(digest@, r@, s@, recid) is None,
        },
{
    let rid = k256::ecdsa::RecoveryId::from_byte(recid)?;
    let mut rs = Vec::with_capacity(64);
    rs.extend_from_slice(r);
    rs.extend_from_slice(s);
    let sig = k256::ecdsa::Signature::from_slice(&rs).ok()?;
    let vk = k256::ecdsa::VerifyingKey::recover_from_prehash(digest, &sig, rid).ok()?;
    Some(vk.to_encoded_point(false).as_bytes().to_vec())
}

/// Maps an Ethereum-style recovery byte to a canonical recovery id:
/// the legacy values 27/28 and the raw ids 0/1 map to 0/1, values of 35
/// and above (chain-bound signatures) map by parity, and anything else
/// maps to 4, which no recovery backend accepts.
pub open spec fn normalized_v(v: u8) -> u8 {
    if v == 0 || v == 27 {
        0u8
    } else if v == 1 || v == 28 {
        1u8
    } else if v >= 35 {
        (((v - 35) as u8) % 2) as u8
    } else {
        4u8
    }
}

/// Canonicalises the recovery byte of a signature.
pub fn normalize_v(v: u8) -> (r: u8)
    ensures
        r == normalized_v(v),
{
    if v == 0 || v == 27 {
        0
    } else if v == 1 || v == 28 {
        1
    } else if v >= 35 {
        (v - 35) % 2
    } else {
        4
    }
}

/// The address that signed `digest` under `sig`: the low 20 bytes of the
/// Keccak-256 digest of the recovered key's coordinates, or nothing when
/// recovery fails.
pub open spec fn recovered_address_of(digest: Seq<u8>, sig: Signature) -> Option<Seq<u8>> {
    match recover_of(digest, sig.r@, sig.s@, normalized_v(sig.v)) {
        Some(pk) => Some(keccak_of(pk.subrange(1, 65)).subrange(12, 32)),
        None => None,
    }
}

/// Recovers the 20-byte signing address for `digest` under `sig`.
pub fn recover_address(digest: &Vec<u8>, sig: &Signature) -> (res: Option<Vec<u8>>)
    requires
        digest@.len() == 32,
        sig.wf(),
    ensures
        match res {
            Some(a) => {
                &&& recovered_address_of(digest@, *sig) == Some(a@)
                &&& a@.len() == 20
            },
            None => recovered_address_of(digest@, *sig) is None,
        },
{
    let rid = normalize_v(sig.v);
    match recover_pubkey(digest.as_slice(), sig.r.as_slice(), sig.s.as_slice(), rid) {
        Some(pk) => {
            let coords = slice_subrange(pk.as_slice(), 1, 65);
            let h = keccak256_bytes(coords);
            let addr = slice_to_vec(slice_subrange(h.as_slice(), 12, 32));
            assert(Some(addr@) == recovered_address_of(digest@, *sig));
            Some(addr)
        },
        None => None,
    }
}

} // verus!
