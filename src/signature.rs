//! The `X-Hub-Signature-256` check: `sha256=` followed by the hex of the
//! HMAC-SHA256 of the raw body under the shared secret.
use vstd::prelude::*;

use crate::text::{strip_prefix, text_of};

verus! {

/// Why a delivery failed authentication. The caller sees one uniform `400`
/// for all of them; the variant is for the server's own log.
#[derive(Debug, Clone, Copy, PartialEq, Eq, Structural)]
pub enum SignatureError {
    /// No signature header at all.
    Missing,
    /// The header does not start with `sha256=`.
    BadFormat,
    /// The digest after the prefix is not an even run of hex digits.
    BadHex,
    /// The digest is not the HMAC of the body under the secret.
    Mismatch,
}

#[verifier::external_type_specification]
#[verifier::external_body]
pub struct ExFromHexError(hex::FromHexError);

/// HMAC-SHA256 of `msg` under `key`.
pub uninterp spec fn hmac_sha256(key: Seq<u8>, msg: Seq<u8>) -> Seq<u8>;

pub open spec fn is_hex_digit(c: char) -> bool {
    ('0' <= c && c <= '9') || ('a' <= c && c <= 'f') || ('A' <= c && c <= 'F')
}

pub open spec fn hex_digit_value(c: char) -> int {
    if '0' <= c && c <= '9' {
        c as int - '0' as int
    } else if 'a' <= c && c <= 'f' {
        c as int - 'a' as int + 10
    } else {
        c as int - 'A' as int + 10
    }
}

/// An even number of hex digits, of either case.
pub open spec fn is_hex_text(s: Seq<char>) -> bool {
    &&& s.len() % 2 == 0
    &&& forall|i: int| 0 <= i < s.len() ==> is_hex_digit(#[trigger] s[i])
}

/// The bytes that hex text spells, two digits to a byte, high digit first.
pub open spec fn hex_bytes(s: Seq<char>) -> Seq<u8> {
    Seq::new(
        s.len() / 2,
        |i: int| (hex_digit_value(s[2 * i]) * 16 + hex_digit_value(s[2 * i + 1])) as u8,
    )
}

pub open spec fn lower_hex_digit(v: int) -> char {
    seq!['0', '1', '2', '3', '4', '5', '6', '7', '8', '9', 'a', 'b', 'c', 'd', 'e', 'f'][v]
}

/// Lower-case hex text of bytes, two digits to a byte.
pub open spec fn lower_hex(b: Seq<u8>) -> Seq<char> {
    Seq::new(
        2 * b.len(),
        |i: int|
            if i % 2 == 0 {
                lower_hex_digit(b[i / 2] as int / 16)
            } else {
                lower_hex_digit(b[i / 2] as int % 16)
            },
    )
}

pub open spec fn signature_prefix() -> Seq<char> {
    seq!['s', 'h', 'a', '2', '5', '6', '=']
}

/// The header value that signs `body` under `secret`.
pub open spec fn signature_header(secret: Seq<u8>, body: Seq<u8>) -> Seq<char> {
    signature_prefix() + lower_hex(hmac_sha256(secret, body))
}

/// The verdict on a delivery: each step of the check in order, the first that
/// fails deciding the error.
pub open spec fn signature_verdict(
    secret: Seq<u8>,
    header: Option<Seq<char>>,
    body: Seq<u8>,
) -> Result<(), SignatureError> {
    match header {
        None => Err(SignatureError::Missing),
        Some(h) => if !signature_prefix().is_prefix_of(h) {
            Err(SignatureError::BadFormat)
        } else {
            let digest = h.skip(signature_prefix().len() as int);
            if !is_hex_text(digest) {
                Err(SignatureError::BadHex)
            } else if hex_bytes(digest) == hmac_sha256(secret, body) {
                Ok(())
            } else {
                Err(SignatureError::Mismatch)
            }
        },
    }
}

/// Relies on `hex::decode`: an even number of hex digits of either case
/// decodes, two digits to a byte, high digit first; any other text is an error.
#[verifier::external_body]
fn decode_hex(s: &str) -> (r: Result<Vec<u8>, hex::FromHexError>)
    ensures
        r is Ok <==> is_hex_text(s@),
        r matches Ok(b) ==> b@ == hex_bytes(s@),
{
    hex::decode(s)
}

/// Relies on `hmac::Hmac<sha2::Sha256>`: `new_from_slice` takes a key of any
/// length, and `verify_slice` accepts exactly the full tag of what was fed to
/// `update`, compared in constant time.
#[verifier::external_body]
fn hmac_sha256_matches(key: &[u8], msg: &[u8], tag: &[u8]) -> (r: bool)
    ensures
        r == (tag@ == hmac_sha256(key@, msg@)),
{
    match <hmac::Hmac<sha2::Sha256> as hmac::Mac>::new_from_slice(key) {
        Ok(mut mac) => {
            hmac::Mac::update(&mut mac, msg);
            hmac::Mac::verify_slice(mac, tag).is_ok()
        },
        Err(_) => false,
    }
}

/// Reads the digest out of a signature header value: the hex after `sha256=`.
pub fn parse_signature(header: &str) -> (r: Result<Vec<u8>, SignatureError>)
    ensures
        !signature_prefix().is_prefix_of(header@) ==> r == Err::<Vec<u8>, _>(
            SignatureError::BadFormat,
        ),
        signature_prefix().is_prefix_of(header@) ==> {
            let digest = header@.skip(7);
            &&& r is Ok <==> is_hex_text(digest)
            &&& r is Err ==> r == Err::<Vec<u8>, _>(SignatureError::BadHex)
            &&& r matches Ok(b) ==> b@ == hex_bytes(digest)
        },
{
    proof {
        reveal_strlit("sha256=");
    }
    match strip_prefix(header, "sha256=") {
        None => Err(SignatureError::BadFormat),
        Some(digest) => match decode_hex(digest) {
            Ok(bytes) => Ok(bytes),
            Err(_) => Err(SignatureError::BadHex),
        },
    }
}

/// Checks a delivery: the signature header, if any, against the HMAC-SHA256
/// of the raw body under the secret.
pub fn verify_signature(secret: &[u8], header: Option<&str>, body: &[u8]) -> (r: Result<
    (),
    SignatureError,
>)
    ensures
        r == signature_verdict(secret@, text_of(header), body@),
{
    match header {
        None => Err(SignatureError::Missing),
        Some(h) => match parse_signature(h) {
            Err(e) => Err(e),
            Ok(tag) => {
                if hmac_sha256_matches(secret, body, tag.as_slice()) {
                    Ok(())
                } else {
                    Err(SignatureError::Mismatch)
                }
            },
        },
    }
}

proof fn lemma_lower_hex_digit(v: int)
    requires
        0 <= v < 16,
    ensures
        is_hex_digit(lower_hex_digit(v)),
        hex_digit_value(lower_hex_digit(v)) == v,
{
    let digits = seq!['0', '1', '2', '3', '4', '5', '6', '7', '8', '9', 'a', 'b', 'c', 'd', 'e', 'f'];
    assert(lower_hex_digit(v) == digits[v]);
    if v < 10 {
        assert(digits[v] as int == '0' as int + v);
    } else {
        assert(digits[v] as int == 'a' as int + v - 10);
    }
}

/// Lower-case hex text is hex text, and decodes back to the bytes it spells.
pub proof fn lemma_lower_hex_round_trip(b: Seq<u8>)
    ensures
        is_hex_text(lower_hex(b)),
        hex_bytes(lower_hex(b)) == b,
{
    let h = lower_hex(b);
    assert forall|i: int| 0 <= i < h.len() implies is_hex_digit(#[trigger] h[i]) by {
        lemma_lower_hex_digit(b[i / 2] as int / 16);
        lemma_lower_hex_digit(b[i / 2] as int % 16);
    }
    assert forall|i: int| 0 <= i < b.len() implies #[trigger] hex_bytes(h)[i] == b[i] by {
        assert((2 * i) / 2 == i);
        assert((2 * i + 1) / 2 == i);
        assert((2 * i) % 2 == 0);
        assert((2 * i + 1) % 2 == 1);
        lemma_lower_hex_digit(b[i] as int / 16);
        lemma_lower_hex_digit(b[i] as int % 16);
    }
    assert(hex_bytes(h) =~= b);
}

/// A body signed with the secret is accepted: the header that carries the
/// lower-case hex of its HMAC passes the check.
pub proof fn law_signed_body_accepted(secret: Seq<u8>, body: Seq<u8>)
    ensures
        signature_verdict(secret, Some(signature_header(secret, body)), body) == Ok::<
            (),
            SignatureError,
        >(()),
{
    let h = signature_header(secret, body);
    lemma_lower_hex_round_trip(hmac_sha256(secret, body));
    assert(h.subrange(0, 7) =~= signature_prefix());
    assert(h.skip(7) =~= lower_hex(hmac_sha256(secret, body)));
}

/// Any digest other than the body's HMAC is rejected as a mismatch, however
/// little it differs (one flipped bit included).
pub proof fn law_altered_digest_rejected(secret: Seq<u8>, body: Seq<u8>, digest: Seq<u8>)
    requires
        digest != hmac_sha256(secret, body),
    ensures
        signature_verdict(secret, Some(signature_prefix() + lower_hex(digest)), body) == Err::<
            (),
            SignatureError,
        >(SignatureError::Mismatch),
{
    let h = signature_prefix() + lower_hex(digest);
    lemma_lower_hex_round_trip(digest);
    assert(h.subrange(0, 7) =~= signature_prefix());
    assert(h.skip(7) =~= lower_hex(digest));
}

/// A signature made for one body passes for another body exactly when the two
/// bodies have the same HMAC under the secret: the verdict depends on this
/// body and this signature alone.
pub proof fn law_other_body(secret: Seq<u8>, body: Seq<u8>, other: Seq<u8>)
    ensures
        signature_verdict(secret, Some(signature_header(secret, body)), other) is Ok
            <==> hmac_sha256(secret, other) == hmac_sha256(secret, body),
        signature_verdict(secret, Some(signature_header(secret, body)), other) is Err
            ==> signature_verdict(secret, Some(signature_header(secret, body)), other)
            == Err::<(), SignatureError>(SignatureError::Mismatch),
{
    let h = signature_header(secret, body);
    lemma_lower_hex_round_trip(hmac_sha256(secret, body));
    assert(h.subrange(0, 7) =~= signature_prefix());
    assert(h.skip(7) =~= lower_hex(hmac_sha256(secret, body)));
}

/// Without a signature header a delivery is refused, whatever its body.
pub proof fn law_unsigned_rejected(secret: Seq<u8>, body: Seq<u8>)
    ensures
        signature_verdict(secret, None, body) == Err::<(), SignatureError>(
            SignatureError::Missing,
        ),
{
}

} // verus!
