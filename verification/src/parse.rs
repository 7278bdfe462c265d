//! Turning the textual input records into typed values: hex strings into
//! byte strings, decimal strings into timestamps and the chain id, and
//! the whole record into a `VerificationInput`, domain separator
//! included.

use vstd::prelude::*;
use vstd::string::StrSliceExecFns;
use vstd::utf8::encode_utf8;

use crate::errors::ParseError;
use crate::hashing::domain_separator;
use crate::hashing::domain_type_hash;
use crate::hashing::keccak_of;
use crate::hashing::opt_bytes;
use crate::structs::DomainData;
use crate::structs::InputData;
use crate::structs::MessageData;
use crate::structs::SignatureDetails;
use crate::types::Attest;
use crate::types::Domain;
use crate::types::Signature;
use crate::types::VerificationInput;
use crate::words::push_u64_word;
use crate::words::word_of_addr;
use crate::words::word_of_u64;

verus! {

/// A hexadecimal digit: `0-9`, `a-f` or `A-F`.
pub open spec fn is_hex_digit(c: char) -> bool {
    (48 <= c as u32 && c as u32 <= 57) || (97 <= c as u32 && c as u32 <= 102) || (65 <= c as u32
        && c as u32 <= 70)
}

/// The value of a hexadecimal digit.
pub open spec fn hex_digit_value(c: char) -> u8
    recommends
        is_hex_digit(c),
{
    if 48 <= c as u32 && c as u32 <= 57 {
        (c as u32 - 48) as u8
    } else if 97 <= c as u32 && c as u32 <= 102 {
        (c as u32 - 87) as u8
    } else {
        (c as u32 - 55) as u8
    }
}

/// A string of hexadecimal digits encoding whole bytes.
pub open spec fn is_hex_str(s: Seq<char>) -> bool {
    &&& s.len() % 2 == 0
    &&& forall|i: int| 0 <= i < s.len() ==> is_hex_digit(s[i])
}

/// A hex string of exactly `n` bytes.
pub open spec fn is_hex_fixed(s: Seq<char>, n: nat) -> bool {
    &&& is_hex_str(s)
    &&& s.len() == 2 * n
}

/// The bytes a hex string encodes, two digits a byte, high digit first.
pub open spec fn hex_bytes_of(s: Seq<char>) -> Seq<u8>
    recommends
        is_hex_str(s),
{
    Seq::new(
        (s.len() / 2) as nat,
        |k: int| (hex_digit_value(s[2 * k]) * 16 + hex_digit_value(s[2 * k + 1])) as u8,
    )
}

/// The string with a leading `0x` or `0X` removed, if it carries one.
pub open spec fn strip_0x(s: Seq<char>) -> Seq<char> {
    if s.len() >= 2 && s[0] == '0' && (s[1] == 'x' || s[1] == 'X') {
        s.subrange(2, s.len() as int)
    } else {
        s
    }
}

/// A decimal digit.
pub open spec fn is_dec_digit(c: char) -> bool {
    48 <= c as u32 && c as u32 <= 57
}

/// A non-empty string of decimal digits.
pub open spec fn is_dec_str(s: Seq<char>) -> bool {
    &&& s.len() > 0
    &&& forall|i: int| 0 <= i < s.len() ==> is_dec_digit(s[i])
}

/// The number a decimal string denotes.
pub open spec fn dec_value(s: Seq<char>) -> nat
    recommends
        forall|i: int| 0 <= i < s.len() ==> is_dec_digit(s[i]),
    decreases s.len(),
{
    if s.len() == 0 {
        0
    } else {
        dec_value(s.drop_last()) * 10 + ((s.last() as u32 - 48) as nat)
    }
}

/// Reading one more digit multiplies the value so far by ten and adds it.
proof fn lemma_dec_value_step(s: Seq<char>, i: int)
    requires
        0 <= i < s.len(),
    ensures
        dec_value(s.subrange(0, i + 1)) == dec_value(s.subrange(0, i)) * 10 + ((s[i] as u32
            - 48) as nat),
{
    assert(s.subrange(0, i + 1).drop_last() =~= s.subrange(0, i));
    assert(s.subrange(0, i + 1).last() == s[i]);
}

/// Reading further digits never shrinks the value.
proof fn lemma_dec_value_monotone(s: Seq<char>, i: int, j: int)
    requires
        0 <= i <= j <= s.len(),
    ensures
        dec_value(s.subrange(0, j)) >= dec_value(s.subrange(0, i)),
    decreases j - i,
{
    if i < j {
        lemma_dec_value_monotone(s, i, j - 1);
        lemma_dec_value_step(s, j - 1);
    }
}

/// Reads one hexadecimal digit.
fn hex_digit(c: char) -> (r: Option<u8>)
    ensures
        match r {
            Some(v) => {
                &&& is_hex_digit(c)
                &&& v == hex_digit_value(c)
                &&& v <= 15
            },
            None => !is_hex_digit(c),
        },
{
    let u = c as u32;
    if 48 <= u && u <= 57 {
        Some((u - 48) as u8)
    } else if 97 <= u && u <= 102 {
        Some((u - 87) as u8)
    } else if 65 <= u && u <= 70 {
        Some((u - 55) as u8)
    } else {
        None
    }
}

/// Parses a hex string without prefix into its bytes; fails exactly on a
/// string with an odd number of digits or a character that is no digit.
fn parse_hex_plain(s: &str) -> (r: Result<Vec<u8>, ParseError>)
    ensures
        match r {
            Ok(v) => {
                &&& is_hex_str(s@)
                &&& v@ == hex_bytes_of(s@)
            },
            Err(e) => {
                &&& e == ParseError::InvalidHex
                &&& !is_hex_str(s@)
            },
        },
{
    let n = s.unicode_len();
    if n % 2 != 0 {
        return Err(ParseError::InvalidHex);
    }
    let half = n / 2;
    let mut out: Vec<u8> = Vec::new();
    let mut k: usize = 0;
    while k < half
        invariant
            n == s@.len(),
            n % 2 == 0,
            half == n / 2,
            k <= half,
            out@.len() == k,
            forall|i: int| 0 <= i < 2 * k ==> is_hex_digit(s@[i]),
            forall|i: int|
                0 <= i < k ==> out@[i] == (hex_digit_value(s@[2 * i]) * 16 + hex_digit_value(
                    s@[2 * i + 1],
                )) as u8,
        decreases half - k,
    {
        let c1 = s.get_char(2 * k);
        let c2 = s.get_char(2 * k + 1);
        let h1 = match hex_digit(c1) {
            Some(h) => h,
            None => {
                return Err(ParseError::InvalidHex);
            },
        };
        let h2 = match hex_digit(c2) {
            Some(h) => h,
            None => {
                return Err(ParseError::InvalidHex);
            },
        };
        out.push(h1 * 16 + h2);
        k = k + 1;
    }
    assert(is_hex_str(s@));
    assert(out@ =~= hex_bytes_of(s@));
    Ok(out)
}

/// Parses a hex string, tolerating a leading `0x` or `0X`, into its
/// bytes.
pub fn parse_hex_bytes(s: &str) -> (r: Result<Vec<u8>, ParseError>)
    ensures
        match r {
            Ok(v) => {
                &&& is_hex_str(strip_0x(s@))
                &&& v@ == hex_bytes_of(strip_0x(s@))
            },
            Err(e) => {
                &&& e == ParseError::InvalidHex
                &&& !is_hex_str(strip_0x(s@))
            },
        },
{
    let n = s.unicode_len();
    if n >= 2 {
        let c0 = s.get_char(0);
        let c1 = s.get_char(1);
        if c0 == '0' && (c1 == 'x' || c1 == 'X') {
            let t = s.substring_char(2, n);
            assert(t@ == strip_0x(s@));
            return parse_hex_plain(t);
        }
    }
    assert(s@ == strip_0x(s@));
    parse_hex_plain(s)
}

/// Parses a hex string that must encode exactly `n` bytes.
pub fn parse_hex_fixed(s: &str, n: usize) -> (r: Result<Vec<u8>, ParseError>)
    ensures
        match r {
            Ok(v) => {
                &&& is_hex_fixed(strip_0x(s@), n as nat)
                &&& v@ == hex_bytes_of(strip_0x(s@))
                &&& v@.len() == n
            },
            Err(e) => {
                &&& e == ParseError::InvalidHex
                &&& !is_hex_fixed(strip_0x(s@), n as nat)
            },
        },
{
    let v = match parse_hex_bytes(s) {
        Ok(v) => v,
        Err(e) => {
            return Err(e);
        },
    };
    if v.len() != n {
        return Err(ParseError::InvalidHex);
    }
    Ok(v)
}

/// Parses a decimal string into a 64-bit value; fails exactly on an
/// empty string, a non-digit character, or a value beyond the range.
pub fn parse_u64_dec(s: &str) -> (r: Result<u64, ParseError>)
    ensures
        match r {
            Ok(v) => {
                &&& is_dec_str(s@)
                &&& dec_value(s@) == v as nat
            },
            Err(e) => (e == ParseError::InvalidDecimal && !is_dec_str(s@)) || (e
                == ParseError::ValueTooLarge && is_dec_str(s@) && dec_value(s@) > u64::MAX as nat),
        },
{
    let n = s.unicode_len();
    if n == 0 {
        return Err(ParseError::InvalidDecimal);
    }
    let mut k: usize = 0;
    while k < n
        invariant
            n == s@.len(),
            k <= n,
            forall|i: int| 0 <= i < k ==> is_dec_digit(s@[i]),
        decreases n - k,
    {
        let c = s.get_char(k);
        let u = c as u32;
        if !(48 <= u && u <= 57) {
            return Err(ParseError::InvalidDecimal);
        }
        k = k + 1;
    }
    assert(is_dec_str(s@));
    let mut v: u128 = 0;
    let mut k2: usize = 0;
    while k2 < n
        invariant
            n == s@.len(),
            k2 <= n,
            is_dec_str(s@),
            v <= u64::MAX,
            v as nat == dec_value(s@.subrange(0, k2 as int)),
        decreases n - k2,
    {
        let c = s.get_char(k2);
        let u = c as u32;
        assert(is_dec_digit(s@[k2 as int]));
        let d: u128 = (u - 48) as u128;
        let next: u128 = v * 10 + d;
        proof {
            lemma_dec_value_step(s@, k2 as int);
        }
        if next > u64::MAX as u128 {
            proof {
                lemma_dec_value_monotone(s@, k2 as int + 1, n as int);
                assert(s@.subrange(0, n as int) =~= s@);
            }
            return Err(ParseError::ValueTooLarge);
        }
        v = next;
        k2 = k2 + 1;
    }
    assert(s@.subrange(0, n as int) =~= s@);
    Ok(v as u64)
}

/// Why a domain record is rejected, or nothing if it parses: the chain
/// id is read first, the contract address second.
pub open spec fn domain_parse_err(d: DomainData) -> Option<ParseError> {
    if !is_dec_str(d.chain_id@) {
        Some(ParseError::InvalidDecimal)
    } else if dec_value(d.chain_id@) > u64::MAX as nat {
        Some(ParseError::ValueTooLarge)
    } else if !is_hex_fixed(strip_0x(d.verifying_contract@), 20) {
        Some(ParseError::InvalidHex)
    } else {
        None
    }
}

/// Parses a textual domain record into a typed domain: the strings stay
/// as their UTF-8 bytes, the chain id becomes a 256-bit word, the
/// contract becomes its 20 bytes.
pub fn parse_domain(d: &DomainData) -> (r: Result<Domain, ParseError>)
    ensures
        match r {
            Ok(dom) => {
                &&& domain_parse_err(*d) is None
                &&& dom.wf()
                &&& dom.name is Some
                &&& dom.version is Some
                &&& opt_bytes(dom.name) == encode_utf8(d.name@)
                &&& opt_bytes(dom.version) == encode_utf8(d.version@)
                &&& dom.chain_id@ == word_of_u64((dec_value(d.chain_id@)) as u64)
                &&& dom.verifying_contract@ == hex_bytes_of(strip_0x(d.verifying_contract@))
            },
            Err(e) => domain_parse_err(*d) == Some(e),
        },
{
    let chain_id_value = match parse_u64_dec(d.chain_id.as_str()) {
        Ok(v) => v,
        Err(e) => {
            return Err(e);
        },
    };
    let contract = match parse_hex_fixed(d.verifying_contract.as_str(), 20) {
        Ok(v) => v,
        Err(e) => {
            return Err(e);
        },
    };
    let mut chain_id: Vec<u8> = Vec::new();
    push_u64_word(&mut chain_id, chain_id_value);
    Ok(
        Domain {
            name: Some(d.name.as_str().as_bytes_vec()),
            version: Some(d.version.as_str().as_bytes_vec()),
            chain_id,
            verifying_contract: contract,
        },
    )
}

/// Why a signature record is rejected: either scalar must be 32 bytes of
/// hex.
pub open spec fn signature_parse_err(sd: SignatureDetails) -> Option<ParseError> {
    if !is_hex_fixed(strip_0x(sd.r@), 32) {
        Some(ParseError::InvalidHex)
    } else if !is_hex_fixed(strip_0x(sd.s@), 32) {
        Some(ParseError::InvalidHex)
    } else {
        None
    }
}

/// Parses a textual signature record.
pub fn parse_signature(sd: &SignatureDetails) -> (r: Result<Signature, ParseError>)
    ensures
        match r {
            Ok(sig) => {
                &&& signature_parse_err(*sd) is None
                &&& sig.wf()
                &&& sig.r@ == hex_bytes_of(strip_0x(sd.r@))
                &&& sig.s@ == hex_bytes_of(strip_0x(sd.s@))
                &&& sig.v == sd.v
            },
            Err(e) => signature_parse_err(*sd) == Some(e),
        },
{
    let rr = match parse_hex_fixed(sd.r.as_str(), 32) {
        Ok(v) => v,
        Err(e) => {
            return Err(e);
        },
    };
    let ss = match parse_hex_fixed(sd.s.as_str(), 32) {
        Ok(v) => v,
        Err(e) => {
            return Err(e);
        },
    };
    Ok(Signature { r: rr, s: ss, v: sd.v })
}

/// Why a message record is rejected, in the order its fields are read.
pub open spec fn message_parse_err(m: MessageData) -> Option<ParseError> {
    if !is_hex_fixed(strip_0x(m.schema@), 32) {
        Some(ParseError::InvalidHex)
    } else if !is_hex_fixed(strip_0x(m.recipient@), 20) {
        Some(ParseError::InvalidHex)
    } else if !is_dec_str(m.time@) {
        Some(ParseError::InvalidDecimal)
    } else if dec_value(m.time@) > u64::MAX as nat {
        Some(ParseError::ValueTooLarge)
    } else if !is_dec_str(m.expiration_time@) {
        Some(ParseError::InvalidDecimal)
    } else if dec_value(m.expiration_time@) > u64::MAX as nat {
        Some(ParseError::ValueTooLarge)
    } else if !is_hex_fixed(strip_0x(m.ref_uid@), 32) {
        Some(ParseError::InvalidHex)
    } else if !is_hex_str(strip_0x(m.data@)) {
        Some(ParseError::InvalidHex)
    } else if !is_hex_fixed(strip_0x(m.salt@), 32) {
        Some(ParseError::InvalidHex)
    } else {
        None
    }
}

/// Parses a textual message record into a typed attestation.
pub fn parse_message(m: &MessageData) -> (r: Result<Attest, ParseError>)
    ensures
        match r {
            Ok(a) => {
                &&& message_parse_err(*m) is None
                &&& a.wf()
                &&& a.version == m.version
                &&& a.schema@ == hex_bytes_of(strip_0x(m.schema@))
                &&& a.recipient@ == hex_bytes_of(strip_0x(m.recipient@))
                &&& a.time as nat == dec_value(m.time@)
                &&& a.expiration_time as nat == dec_value(m.expiration_time@)
                &&& a.revocable == m.revocable
                &&& a.ref_uid@ == hex_bytes_of(strip_0x(m.ref_uid@))
                &&& a.data@ == hex_bytes_of(strip_0x(m.data@))
                &&& a.salt@ == hex_bytes_of(strip_0x(m.salt@))
            },
            Err(e) => message_parse_err(*m) == Some(e),
        },
{
    let schema = match parse_hex_fixed(m.schema.as_str(), 32) {
        Ok(v) => v,
        Err(e) => {
            return Err(e);
        },
    };
    let recipient = match parse_hex_fixed(m.recipient.as_str(), 20) {
        Ok(v) => v,
        Err(e) => {
            return Err(e);
        },
    };
    let time = match parse_u64_dec(m.time.as_str()) {
        Ok(v) => v,
        Err(e) => {
            return Err(e);
        },
    };
    let expiration_time = match parse_u64_dec(m.expiration_time.as_str()) {
        Ok(v) => v,
        Err(e) => {
            return Err(e);
        },
    };
    let ref_uid = match parse_hex_fixed(m.ref_uid.as_str(), 32) {
        Ok(v) => v,
        Err(e) => {
            return Err(e);
        },
    };
    let data = match parse_hex_bytes(m.data.as_str()) {
        Ok(v) => v,
        Err(e) => {
            return Err(e);
        },
    };
    let salt = match parse_hex_fixed(m.salt.as_str(), 32) {
        Ok(v) => v,
        Err(e) => {
            return Err(e);
        },
    };
    Ok(
        Attest {
            version: m.version,
            schema,
            recipient,
            time,
            expiration_time,
            revocable: m.revocable,
            ref_uid,
            data,
            salt,
        },
    )
}

/// The domain separator a textual domain record yields once parsed.
pub open spec fn domain_separator_of_data(d: DomainData) -> Seq<u8>
    recommends
        domain_parse_err(d) is None,
{
    keccak_of(
        domain_type_hash() + keccak_of(encode_utf8(d.name@)) + keccak_of(encode_utf8(d.version@))
            + word_of_u64((dec_value(d.chain_id@)) as u64) + word_of_addr(
            hex_bytes_of(strip_0x(d.verifying_contract@)),
        ),
    )
}

/// Why a whole input record is rejected, in the order its parts are
/// read: domain, signer, message, then signature.
pub open spec fn input_parse_err(inp: InputData) -> Option<ParseError> {
    if domain_parse_err(inp.sig.domain) is Some {
        domain_parse_err(inp.sig.domain)
    } else if !is_hex_fixed(strip_0x(inp.signer@), 20) {
        Some(ParseError::InvalidHex)
    } else if message_parse_err(inp.sig.message) is Some {
        message_parse_err(inp.sig.message)
    } else if signature_parse_err(inp.sig.signature) is Some {
        signature_parse_err(inp.sig.signature)
    } else {
        None
    }
}

/// Assembles the verifier's input from a textual input record, the age
/// threshold and the current time, computing the domain separator on the
/// way.
pub fn build_verification_input(
    inp: &InputData,
    threshold_age: u64,
    current_timestamp: u64,
) -> (r: Result<VerificationInput, ParseError>)
    ensures
        match r {
            Ok(vi) => {
                &&& input_parse_err(*inp) is None
                &&& vi.wf()
                &&& vi.signer_address@ == hex_bytes_of(strip_0x(inp.signer@))
                &&& vi.signature.r@ == hex_bytes_of(strip_0x(inp.sig.signature.r@))
                &&& vi.signature.s@ == hex_bytes_of(strip_0x(inp.sig.signature.s@))
                &&& vi.signature.v == inp.sig.signature.v
                &&& vi.threshold_age == threshold_age
                &&& vi.current_timestamp == current_timestamp
                &&& vi.attestation.version == inp.sig.message.version
                &&& vi.attestation.schema@ == hex_bytes_of(strip_0x(inp.sig.message.schema@))
                &&& vi.attestation.recipient@ == hex_bytes_of(strip_0x(inp.sig.message.recipient@))
                &&& vi.attestation.time as nat == dec_value(inp.sig.message.time@)
                &&& vi.attestation.expiration_time as nat == dec_value(
                    inp.sig.message.expiration_time@,
                )
                &&& vi.attestation.revocable == inp.sig.message.revocable
                &&& vi.attestation.ref_uid@ == hex_bytes_of(strip_0x(inp.sig.message.ref_uid@))
                &&& vi.attestation.data@ == hex_bytes_of(strip_0x(inp.sig.message.data@))
                &&& vi.attestation.salt@ == hex_bytes_of(strip_0x(inp.sig.message.salt@))
                &&& vi.domain_separator@ == domain_separator_of_data(inp.sig.domain)
            },
            Err(e) => input_parse_err(*inp) == Some(e),
        },
{
    let dom = match parse_domain(&inp.sig.domain) {
        Ok(d) => d,
        Err(e) => {
            return Err(e);
        },
    };
    let signer_address = match parse_hex_fixed(inp.signer.as_str(), 20) {
        Ok(v) => v,
        Err(e) => {
            return Err(e);
        },
    };
    let attestation = match parse_message(&inp.sig.message) {
        Ok(a) => a,
        Err(e) => {
            return Err(e);
        },
    };
    let signature = match parse_signature(&inp.sig.signature) {
        Ok(s) => s,
        Err(e) => {
            return Err(e);
        },
    };
    let sep = match domain_separator(&dom) {
        Ok(h) => h,
        Err(_) => {
            // Unreachable: the parsed domain always carries name and
            // version, which is all the separator computation asks.
            return Err(ParseError::InvalidHex);
        },
    };
    assert(sep@ == domain_separator_of_data(inp.sig.domain)) by {
        assert(crate::hashing::domain_preimage(dom) =~= domain_type_hash() + keccak_of(
            encode_utf8(inp.sig.domain.name@),
        ) + keccak_of(encode_utf8(inp.sig.domain.version@)) + word_of_u64(
            (dec_value(inp.sig.domain.chain_id@)) as u64,
        ) + word_of_addr(hex_bytes_of(strip_0x(inp.sig.domain.verifying_contract@))));
    }
    Ok(
        VerificationInput {
            signer_address,
            signature,
            threshold_age,
            current_timestamp,
            attestation,
            domain_separator: sep,
        },
    )
}

} // verus!
