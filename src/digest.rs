use vstd::prelude::*;
use vstd::utf8::encode_utf8;

use md5::Digest;

use crate::text::{hex_text, push_char, push_hex, push_text, decimal_text, push_decimal};

verus! {

/// The MD5 digest of a byte sequence.
pub uninterp spec fn md5_digest(data: Seq<u8>) -> Seq<u8>;

/// UTF-16 code units of one character.
pub open spec fn utf16_of_char(c: char) -> Seq<u16> {
    let v = c as u32 as int;
    if v < 0x10000 {
        seq![v as u16]
    } else {
        seq![(0xD800 + (v - 0x10000) / 1024) as u16, (0xDC00 + (v - 0x10000) % 1024) as u16]
    }
}

/// UTF-16 code units of a character sequence.
pub open spec fn utf16_units(s: Seq<char>) -> Seq<u16>
    decreases s.len(),
{
    if s.len() == 0 {
        seq![]
    } else {
        utf16_units(s.drop_last()) + utf16_of_char(s.last())
    }
}

/// Little-endian bytes of a sequence of 16-bit units.
pub open spec fn le_bytes(units: Seq<u16>) -> Seq<u8>
    decreases units.len(),
{
    if units.len() == 0 {
        seq![]
    } else {
        le_bytes(units.drop_last()) + seq![(units.last() % 256) as u8, (units.last() / 256) as u8]
    }
}

/// The two characters that separate the parts of a signed request.
pub open spec fn crlf() -> Seq<char> {
    seq!['\r', '\n']
}

/// Answer to a gateway login challenge: the challenge, a dash, and the hex MD5
/// of the UTF-16LE bytes of `challenge-password`.
pub open spec fn challenge_response_text(challenge: Seq<char>, password: Seq<char>) -> Seq<char> {
    challenge + seq!['-'] + hex_text(
        md5_digest(le_bytes(utf16_units(challenge + seq!['-'] + password))),
    )
}

/// The text that a cloud API request signs: path, token and the millisecond
/// timestamp, separated by CR LF.
pub open spec fn signed_text(path: Seq<char>, token: Seq<char>, timestamp_ms: nat) -> Seq<char> {
    path + crlf() + token + crlf() + decimal_text(timestamp_ms)
}

/// Signature of a cloud API request: hex MD5 of the UTF-8 bytes of the signed text.
pub open spec fn signature_text(path: Seq<char>, token: Seq<char>, timestamp_ms: nat) -> Seq<char> {
    hex_text(md5_digest(encode_utf8(signed_text(path, token, timestamp_ms))))
}

/// Relies on `md5::Md5::digest` (RustCrypto `md-5`): the 16-byte MD5 digest,
/// a function of the input bytes alone.
#[verifier::external_body]
fn md5_of(data: &[u8]) -> (r: Vec<u8>)
    ensures
        r@ == md5_digest(data@),
        r@.len() == 16,
{
    md5::Md5::digest(data).to_vec()
}

/// The string's UTF-16 code units, in order.
pub fn utf16_of(s: &str) -> (r: Vec<u16>)
    ensures
        r@ == utf16_units(s@),
{
    let n = s.unicode_len();
    let mut r: Vec<u16> = Vec::new();
    let mut i: usize = 0;
    while i < n
        invariant
            n == s@.len(),
            i <= n,
            r@ == utf16_units(s@.subrange(0, i as int)),
        decreases n - i,
    {
        let c = s.get_char(i);
        let v = c as u32;
        let ghost prev = r@;
        if v < 0x10000 {
            r.push(v as u16);
        } else {
            let w = v - 0x10000;
            r.push((0xD800 + w / 1024) as u16);
            r.push((0xDC00 + w % 1024) as u16);
        }
        proof {
            let next = s@.subrange(0, i + 1);
            assert(next.drop_last() =~= s@.subrange(0, i as int));
            assert(next.last() == c);
            assert(r@ =~= prev + utf16_of_char(c));
        }
        i = i + 1;
    }
    assert(s@.subrange(0, n as int) =~= s@);
    r
}

/// Lays out 16-bit units as little-endian bytes.
pub fn to_le_bytes(units: &Vec<u16>) -> (r: Vec<u8>)
    ensures
        r@ == le_bytes(units@),
{
    let mut r: Vec<u8> = Vec::new();
    let mut i: usize = 0;
    while i < units.len()
        invariant
            i <= units@.len(),
            r@ == le_bytes(units@.subrange(0, i as int)),
        decreases units@.len() - i,
    {
        let u = units[i];
        r.push((u % 256) as u8);
        r.push((u / 256) as u8);
        proof {
            let next = units@.subrange(0, i + 1);
            assert(next.drop_last() =~= units@.subrange(0, i as int));
            assert(next.last() == u);
        }
        i = i + 1;
        assert(r@ =~= le_bytes(units@.subrange(0, i as int)));
    }
    assert(units@.subrange(0, units@.len() as int) =~= units@);
    r
}

/// Computes the response to a gateway login challenge.
pub fn challenge_response(challenge: &str, password: &str) -> (r: String)
    ensures
        r@ == challenge_response_text(challenge@, password@),
{
    let mut plain = challenge.to_owned();
    push_char(&mut plain, '-');
    push_text(&mut plain, password);
    let units = utf16_of(plain.as_str());
    let bytes = to_le_bytes(&units);
    let digest = md5_of(bytes.as_slice());
    let mut r = challenge.to_owned();
    push_char(&mut r, '-');
    push_hex(&mut r, digest.as_slice());
    assert(plain@ =~= challenge@ + seq!['-'] + password@);
    assert(r@ =~= challenge_response_text(challenge@, password@));
    r
}

/// Computes the signature of a cloud API request.
pub fn request_signature(path: &str, token: &str, timestamp_ms: u64) -> (r: String)
    ensures
        r@ == signature_text(path@, token@, timestamp_ms as nat),
{
    let mut plain = path.to_owned();
    push_char(&mut plain, '\r');
    push_char(&mut plain, '\n');
    push_text(&mut plain, token);
    push_char(&mut plain, '\r');
    push_char(&mut plain, '\n');
    push_decimal(&mut plain, timestamp_ms);
    assert(plain@ =~= signed_text(path@, token@, timestamp_ms as nat));
    let digest = md5_of(plain.as_str().as_bytes());
    let mut r = String::new();
    push_hex(&mut r, digest.as_slice());
    assert(r@ =~= signature_text(path@, token@, timestamp_ms as nat));
    r
}

} // verus!
