//! The typed-data hasher: domain separators and structured-signing
//! digests per the EIP-712 convention.
//!
//! Keccak-256 itself comes from an outside crate; its result is named by
//! an uninterpreted spec function, and every digest computed here is
//! pinned, byte for byte, to an expression over that name.

use vstd::prelude::*;
use vstd::string::StrSliceExecFns;
use vstd::utf8::encode_utf8;

use crate::errors::DomainError;
use crate::types::Attest;
use crate::types::Domain;
use crate::words::push_addr_word;
use crate::words::push_bool_word;
use crate::words::push_bytes;
use crate::words::push_u64_word;
use crate::words::word_of_addr;
use crate::words::word_of_bool;
use crate::words::word_of_u64;

verus! {

/// What Keccak-256 returns on `data`, as an unconstrained byte sequence.
/// Only `keccak_of` below reads it; nothing else is assumed of it.
pub uninterp spec fn keccak_raw(data: Seq<u8>) -> Seq<u8>;

/// The Keccak-256 digest of `data`: a 32-byte sequence, a pure function
/// of the input bytes.
pub open spec fn keccak_of(data: Seq<u8>) -> Seq<u8> {
    Seq::new(32, |i: int| keccak_raw(data)[i])
}

/// Relies on `alloy_primitives::keccak256`: the Keccak-256 digest of the
/// input bytes, 32 bytes long, depending on the input bytes alone. The
/// digest is both the raw named result and its fixed-length reading,
/// which agree because the digest has exactly 32 bytes.
#[verifier::external_body]
pub(crate) fn keccak256_bytes(data: &[u8]) -> (r: Vec<u8>)
    ensures
        r@ == keccak_raw(data@),
        r@ == keccak_of(data@),
{
    alloy_primitives::keccak256(data).as_slice().to_vec()
}

/// The characters of the EIP-712 domain type string.
pub open spec fn domain_type_chars() -> Seq<char> {
    "EIP712Domain(string name,string version,uint256 chainId,address verifyingContract)"@
}

/// The characters of the attestation type string: the fixed nine-field
/// structure this system signs.
pub open spec fn attest_type_chars() -> Seq<char> {
    "Attest(uint16 version,bytes32 schema,address recipient,uint64 time,uint64 expirationTime,bool revocable,bytes32 refUID,bytes data,bytes32 salt)"@
}

/// The type hash of the domain struct.
pub open spec fn domain_type_hash() -> Seq<u8> {
    keccak_of(encode_utf8(domain_type_chars()))
}

/// The type hash of the attestation struct.
pub open spec fn attest_type_hash() -> Seq<u8> {
    keccak_of(encode_utf8(attest_type_chars()))
}

/// The bytes of an optional byte-string field; empty when absent.
pub open spec fn opt_bytes(o: Option<Vec<u8>>) -> Seq<u8> {
    match o {
        Some(v) => v@,
        None => Seq::empty(),
    }
}

/// The 160-byte preimage whose digest is the domain separator: the type
/// hash, the hashed name and version, the chain id word and the
/// verifying-contract address word.
pub open spec fn domain_preimage(d: Domain) -> Seq<u8>
    recommends
        d.wf(),
{
    domain_type_hash() + keccak_of(opt_bytes(d.name)) + keccak_of(opt_bytes(d.version))
        + d.chain_id@ + word_of_addr(d.verifying_contract@)
}

/// The domain separator of a well-formed domain with both strings present.
pub open spec fn domain_separator_of(d: Domain) -> Seq<u8> {
    keccak_of(domain_preimage(d))
}

/// Computes the EIP-712 domain separator.
///
/// Rejects a domain whose `name` or `version` is absent; on success the
/// result is exactly `domain_separator_of` for this domain.
pub fn domain_separator(domain: &Domain) -> (r: Result<Vec<u8>, DomainError>)
    requires
        domain.wf(),
    ensures
        match r {
            Ok(h) => {
                &&& domain.name is Some
                &&& domain.version is Some
                &&& h@ == domain_separator_of(*domain)
                &&& h@.len() == 32
            },
            Err(e) => {
                &&& e == DomainError::MissingField
                &&& (domain.name is None || domain.version is None)
            },
        },
{
    let name: &Vec<u8> = match &domain.name {
        Some(n) => n,
        None => {
            return Err(DomainError::MissingField);
        },
    };
    let version: &Vec<u8> = match &domain.version {
        Some(v) => v,
        None => {
            return Err(DomainError::MissingField);
        },
    };
    let type_str: &str = "EIP712Domain(string name,string version,uint256 chainId,address verifyingContract)";
    let type_hash = keccak256_bytes(type_str.as_bytes_vec().as_slice());
    assert(type_str@ == domain_type_chars());
    let name_hash = keccak256_bytes(name.as_slice());
    let version_hash = keccak256_bytes(version.as_slice());
    let mut enc: Vec<u8> = Vec::new();
    push_bytes(&mut enc, type_hash.as_slice());
    push_bytes(&mut enc, name_hash.as_slice());
    push_bytes(&mut enc, version_hash.as_slice());
    push_bytes(&mut enc, domain.chain_id.as_slice());
    push_addr_word(&mut enc, domain.verifying_contract.as_slice());
    assert(enc@ =~= domain_preimage(*domain));
    Ok(keccak256_bytes(enc.as_slice()))
}

/// The 320-byte preimage whose digest is the attestation struct hash:
/// the type hash, then one 32-byte word per field, with the
/// variable-length `data` hashed before inclusion.
pub open spec fn struct_preimage(m: Attest) -> Seq<u8>
    recommends
        m.wf(),
{
    attest_type_hash() + word_of_u64(m.version as u64) + m.schema@ + word_of_addr(m.recipient@)
        + word_of_u64(m.time) + word_of_u64(m.expiration_time) + word_of_bool(m.revocable)
        + m.ref_uid@ + keccak_of(m.data@) + m.salt@
}

/// The attestation struct hash.
pub open spec fn struct_hash_of(m: Attest) -> Seq<u8> {
    keccak_of(struct_preimage(m))
}

/// The structured-signing digest: the standard `0x19 0x01` prefix, the
/// domain separator, then the struct hash, all hashed.
pub open spec fn digest_of(domain_separator: Seq<u8>, m: Attest) -> Seq<u8> {
    keccak_of(seq![0x19u8, 0x01u8] + domain_separator + struct_hash_of(m))
}

/// Computes the structured-signing digest a compliant wallet signs for
/// this attestation under the given domain separator.
pub fn hash_message(domain_separator: &Vec<u8>, message: &Attest) -> (r: Vec<u8>)
    requires
        domain_separator@.len() == 32,
        message.wf(),
    ensures
        r@ == digest_of(domain_separator@, *message),
        r@.len() == 32,
{
    let type_str: &str = "Attest(uint16 version,bytes32 schema,address recipient,uint64 time,uint64 expirationTime,bool revocable,bytes32 refUID,bytes data,bytes32 salt)";
    let type_hash = keccak256_bytes(type_str.as_bytes_vec().as_slice());
    assert(type_str@ == attest_type_chars());
    let data_hash = keccak256_bytes(message.data.as_slice());
    let mut enc: Vec<u8> = Vec::new();
    push_bytes(&mut enc, type_hash.as_slice());
    push_u64_word(&mut enc, message.version as u64);
    push_bytes(&mut enc, message.schema.as_slice());
    push_addr_word(&mut enc, message.recipient.as_slice());
    push_u64_word(&mut enc, message.time);
    push_u64_word(&mut enc, message.expiration_time);
    push_bool_word(&mut enc, message.revocable);
    push_bytes(&mut enc, message.ref_uid.as_slice());
    push_bytes(&mut enc, data_hash.as_slice());
    push_bytes(&mut enc, message.salt.as_slice());
    assert(enc@ =~= struct_preimage(*message));
    let struct_hash = keccak256_bytes(enc.as_slice());
    let mut combined: Vec<u8> = Vec::new();
    combined.push(0x19);
    combined.push(0x01);
    push_bytes(&mut combined, domain_separator.as_slice());
    push_bytes(&mut combined, struct_hash.as_slice());
    assert(combined@ =~= seq![0x19u8, 0x01u8] + domain_separator@ + struct_hash_of(*message));
    keccak256_bytes(combined.as_slice())
}

/// The signed digest binds both inputs: two digest preimages agree only
/// when the domain separator and the struct hash both agree, so a
/// tampered separator or a tampered attestation changes the bytes a
/// wallet signs unless Keccak-256 itself collides.
pub proof fn lemma_digest_preimage_injective(ds1: Seq<u8>, ds2: Seq<u8>, m1: Attest, m2: Attest)
    requires
        ds1.len() == 32,
        ds2.len() == 32,
        seq![0x19u8, 0x01u8] + ds1 + struct_hash_of(m1) == seq![0x19u8, 0x01u8] + ds2
            + struct_hash_of(m2),
    ensures
        ds1 == ds2,
        struct_hash_of(m1) == struct_hash_of(m2),
{
    let p1 = seq![0x19u8, 0x01u8] + ds1 + struct_hash_of(m1);
    let p2 = seq![0x19u8, 0x01u8] + ds2 + struct_hash_of(m2);
    assert(ds1 =~= p1.subrange(2, 34));
    assert(ds2 =~= p2.subrange(2, 34));
    assert(struct_hash_of(m1) =~= p1.subrange(34, 66));
    assert(struct_hash_of(m2) =~= p2.subrange(34, 66));
}

/// The attestation encoding is unambiguous: equal struct preimages come
/// only from attestations that agree on every fixed-size field, on the
/// hash of the payload, and on the type hash. A change of any field
/// therefore changes the struct hash unless Keccak-256 itself collides.
pub proof fn lemma_struct_preimage_injective(m1: Attest, m2: Attest)
    requires
        m1.wf(),
        m2.wf(),
        struct_preimage(m1) == struct_preimage(m2),
    ensures
        word_of_u64(m1.version as u64) == word_of_u64(m2.version as u64),
        m1.schema@ == m2.schema@,
        m1.recipient@ == m2.recipient@,
        word_of_u64(m1.time) == word_of_u64(m2.time),
        word_of_u64(m1.expiration_time) == word_of_u64(m2.expiration_time),
        m1.revocable == m2.revocable,
        m1.ref_uid@ == m2.ref_uid@,
        keccak_of(m1.data@) == keccak_of(m2.data@),
        m1.salt@ == m2.salt@,
{
    let p1 = struct_preimage(m1);
    let p2 = struct_preimage(m2);
    assert(p1.len() == 320);
    assert(p2.len() == 320);
    assert(word_of_u64(m1.version as u64) =~= p1.subrange(32, 64));
    assert(word_of_u64(m2.version as u64) =~= p2.subrange(32, 64));
    assert(m1.schema@ =~= p1.subrange(64, 96));
    assert(m2.schema@ =~= p2.subrange(64, 96));
    assert(m1.recipient@ =~= p1.subrange(108, 128));
    assert(m2.recipient@ =~= p2.subrange(108, 128));
    assert(word_of_u64(m1.time) =~= p1.subrange(128, 160));
    assert(word_of_u64(m2.time) =~= p2.subrange(128, 160));
    assert(word_of_u64(m1.expiration_time) =~= p1.subrange(160, 192));
    assert(word_of_u64(m2.expiration_time) =~= p2.subrange(160, 192));
    assert(p1[223] == (if m1.revocable {
        1u8
    } else {
        0u8
    }));
    assert(p2[223] == (if m2.revocable {
        1u8
    } else {
        0u8
    }));
    assert(m1.ref_uid@ =~= p1.subrange(224, 256));
    assert(m2.ref_uid@ =~= p2.subrange(224, 256));
    assert(keccak_of(m1.data@) =~= p1.subrange(256, 288));
    assert(keccak_of(m2.data@) =~= p2.subrange(256, 288));
    assert(m1.salt@ =~= p1.subrange(288, 320));
    assert(m2.salt@ =~= p2.subrange(288, 320));
}

/// Distinct chain ids or verifying contracts give distinct
/// domain-separator preimages, and a change of the hashed name or
/// version changes the preimage as well: the separators of two such
/// domains can only agree where Keccak-256 itself collides.
pub proof fn lemma_domain_preimage_injective(d1: Domain, d2: Domain)
    requires
        d1.wf(),
        d2.wf(),
        domain_preimage(d1) == domain_preimage(d2),
    ensures
        d1.chain_id@ == d2.chain_id@,
        d1.verifying_contract@ == d2.verifying_contract@,
        keccak_of(opt_bytes(d1.name)) == keccak_of(opt_bytes(d2.name)),
        keccak_of(opt_bytes(d1.version)) == keccak_of(opt_bytes(d2.version)),
{
    let p1 = domain_preimage(d1);
    let p2 = domain_preimage(d2);
    assert(p1.len() == 160);
    assert(p2.len() == 160);
    assert(keccak_of(opt_bytes(d1.name)) =~= p1.subrange(32, 64));
    assert(keccak_of(opt_bytes(d2.name)) =~= p2.subrange(32, 64));
    assert(keccak_of(opt_bytes(d1.version)) =~= p1.subrange(64, 96));
    assert(keccak_of(opt_bytes(d2.version)) =~= p2.subrange(64, 96));
    assert(d1.chain_id@ =~= p1.subrange(96, 128));
    assert(d2.chain_id@ =~= p2.subrange(96, 128));
    assert(d1.verifying_contract@ =~= p1.subrange(140, 160));
    assert(d2.verifying_contract@ =~= p2.subrange(140, 160));
}

} // verus!
