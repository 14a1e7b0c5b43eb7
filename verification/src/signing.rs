//! Outside primitives that request signing uses: HMAC-SHA1, standard
//! Base64 and percent-encoding, each behind a wrapper with its contract.
use vstd::prelude::*;
use vstd::utf8::encode_utf8;
use hmac::Mac;
use base64::Engine;

verus! {

/// HMAC-SHA1 of `msg` under `key`, both taken as their UTF-8 bytes.
pub uninterp spec fn spec_hmac_sha1(key: Seq<char>, msg: Seq<char>) -> Seq<u8>;

/// HMAC-SHA1 with the `hmac` and `sha1` crates. The contract names the 20-byte
/// tag; HMAC accepts keys of any length, so creating it cannot fail.
#[verifier::external_body]
pub(crate) fn hmac_sha1(key: &str, msg: &str) -> (r: Vec<u8>)
    ensures
        r@ == spec_hmac_sha1(key@, msg@),
        r@.len() == 20,
{
    match <hmac::Hmac<sha1::Sha1> as Mac>::new_from_slice(key.as_bytes()) {
        Ok(mut mac) => {
            mac.update(msg.as_bytes());
            mac.finalize().into_bytes().to_vec()
        },
        Err(_) => Vec::new(),
    }
}

/// The standard Base64 alphabet (RFC 4648): `A-Z`, `a-z`, `0-9`, `+`, `/`.
pub open spec fn base64_char(i: int) -> char {
    if i < 26 {
        (65 + i) as char
    } else if i < 52 {
        (97 + (i - 26)) as char
    } else if i < 62 {
        (48 + (i - 52)) as char
    } else if i == 62 {
        '+'
    } else {
        '/'
    }
}

/// Standard Base64 with `=` padding: every three bytes become four characters.
pub open spec fn base64_standard(b: Seq<u8>) -> Seq<char>
    decreases b.len(),
{
    if b.len() == 0 {
        Seq::empty()
    } else if b.len() == 1 {
        seq![base64_char(b[0] as int / 4), base64_char((b[0] as int % 4) * 16), '=', '=']
    } else if b.len() == 2 {
        seq![
            base64_char(b[0] as int / 4),
            base64_char((b[0] as int % 4) * 16 + b[1] as int / 16),
            base64_char((b[1] as int % 16) * 4),
            '=',
        ]
    } else {
        seq![
            base64_char(b[0] as int / 4),
            base64_char((b[0] as int % 4) * 16 + b[1] as int / 16),
            base64_char((b[1] as int % 16) * 4 + b[2] as int / 64),
            base64_char(b[2] as int % 64),
        ] + base64_standard(b.skip(3))
    }
}

/// Base64 with `base64::engine::general_purpose::STANDARD` (padded standard alphabet).
/// The crate computes the output length first and panics only when it overflows `usize`.
#[verifier::external_body]
pub(crate) fn base64_encode(b: &[u8]) -> (r: String)
    requires
        b@.len() <= usize::MAX / 2,
    ensures
        r@ == base64_standard(b@),
{
    base64::engine::general_purpose::STANDARD.encode(b)
}

/// A byte that percent-encoding leaves as it is: `0-9`, `A-Z`, `a-z`, `-`, `.`, `_`, `~`.
pub open spec fn is_url_safe_byte(b: u8) -> bool {
    ||| 0x30 <= b <= 0x39
    ||| 0x41 <= b <= 0x5a
    ||| 0x61 <= b <= 0x7a
    ||| b == 0x2d || b == 0x2e || b == 0x5f || b == 0x7e
}

/// An upper-case hexadecimal digit.
pub open spec fn hex_upper(d: int) -> char {
    if d < 10 {
        (48 + d) as char
    } else {
        (55 + d) as char
    }
}

/// Percent-encoding of bytes: a safe byte stays, any other becomes `%XX`.
pub open spec fn percent_encode_bytes(b: Seq<u8>) -> Seq<char>
    decreases b.len(),
{
    if b.len() == 0 {
        Seq::empty()
    } else {
        percent_encode_bytes(b.drop_last()) + if is_url_safe_byte(b.last()) {
            seq![b.last() as char]
        } else {
            seq!['%', hex_upper((b.last() / 16) as int), hex_upper((b.last() % 16) as int)]
        }
    }
}

/// Percent-encoding of a string's UTF-8 bytes, as `urlencoding::encode` does it.
pub open spec fn url_encode(s: Seq<char>) -> Seq<char> {
    percent_encode_bytes(encode_utf8(s))
}

/// `urlencoding::encode`: every byte but alphanumerics and `-`, `.`, `_`, `~` is percent-encoded.
#[verifier::external_body]
pub(crate) fn url_encode_str(s: &str) -> (r: String)
    ensures
        r@ == url_encode(s@),
{
    urlencoding::encode(s).into_owned()
}

} // verus!
