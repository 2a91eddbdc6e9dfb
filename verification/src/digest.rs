//! MD5 digest computation and challenge generation for the handshake.
use vstd::prelude::*;
use crate::text::{self, decimal_u64};
use crate::wire::put_slice;
use md5::Digest;

verus! {

/// The MD5 digest of a byte string (16 bytes).
pub uninterp spec fn md5_of(data: Seq<u8>) -> Seq<u8>;

/// Hashes `data` with the `md-5` crate's `Md5::digest`; the result is named
/// `md5_of` of the input bytes, and is 16 bytes long.
#[verifier::external_body]
fn md5_hash(data: &[u8]) -> (r: [u8; 16])
    ensures
        r@ == md5_of(data@),
{
    md5::Md5::digest(data).into()
}

/// The bytes that are hashed: the cookie followed by the challenge in decimal.
pub open spec fn digest_input(challenge: u32, cookie: Seq<char>) -> Seq<u8> {
    vstd::utf8::encode_utf8(cookie) + text::decimal_bytes(challenge as nat)
}

/// The handshake digest of a challenge under a cookie.
pub open spec fn spec_digest(challenge: u32, cookie: Seq<char>) -> Seq<u8> {
    md5_of(digest_input(challenge, cookie))
}

/// Under one cookie, different challenges are hashed from different bytes.
pub proof fn lemma_digest_input_distinct_challenges(c1: u32, c2: u32, cookie: Seq<char>)
    requires
        c1 != c2,
    ensures
        digest_input(c1, cookie) != digest_input(c2, cookie),
{
    let e = vstd::utf8::encode_utf8(cookie);
    let d1 = text::decimal_bytes(c1 as nat);
    let d2 = text::decimal_bytes(c2 as nat);
    if digest_input(c1, cookie) == digest_input(c2, cookie) {
        assert((e + d1).subrange(e.len() as int, (e + d1).len() as int) =~= d1);
        assert((e + d2).subrange(e.len() as int, (e + d2).len() as int) =~= d2);
        text::lemma_decimal_injective(c1 as nat, c2 as nat);
    }
}

/// For one challenge, different cookies are hashed from different bytes.
pub proof fn lemma_digest_input_distinct_cookies(challenge: u32, k1: Seq<char>, k2: Seq<char>)
    requires
        k1 != k2,
    ensures
        digest_input(challenge, k1) != digest_input(challenge, k2),
{
    let e1 = vstd::utf8::encode_utf8(k1);
    let e2 = vstd::utf8::encode_utf8(k2);
    let d = text::decimal_bytes(challenge as nat);
    if digest_input(challenge, k1) == digest_input(challenge, k2) {
        assert((e1 + d).subrange(0, e1.len() as int) =~= e1);
        assert((e2 + d).subrange(0, e2.len() as int) =~= e2);
        vstd::utf8::encode_utf8_decode_utf8(k1);
        vstd::utf8::encode_utf8_decode_utf8(k2);
    }
}

/// MD5 of the cookie concatenated with the decimal text of the challenge.
pub fn compute_digest(challenge: u32, cookie: &str) -> (r: [u8; 16])
    ensures
        r@ == spec_digest(challenge, cookie@),
{
    let mut input: Vec<u8> = Vec::new();
    put_slice(&mut input, cookie.as_bytes());
    let digits = decimal_u64(challenge as u64);
    put_slice(&mut input, digits.as_slice());
    assert(input@ == digest_input(challenge, cookie@));
    md5_hash(input.as_slice())
}

/// Nanoseconds since the Unix epoch by the system clock (0 when the clock is
/// before the epoch). Nothing is claimed of the value.
#[verifier::external_body]
fn unix_time_nanos() -> u128 {
    match std::time::SystemTime::now().duration_since(std::time::UNIX_EPOCH) {
        Ok(d) => d.as_nanos(),
        Err(_) => 0,
    }
}

/// The challenge derived from a clock reading: its low 32 bits, or 1 when
/// those are all zero (a challenge is never 0).
pub open spec fn challenge_of_nanos(nanos: u128) -> u32 {
    if nanos % 0x1_0000_0000 == 0 {
        1
    } else {
        (nanos % 0x1_0000_0000) as u32
    }
}

/// The challenge derived from a clock reading: its low 32 bits, or 1 when
/// those are all zero.
pub fn challenge_from_nanos(nanos: u128) -> (r: u32)
    ensures
        r == challenge_of_nanos(nanos),
        r != 0,
{
    let low = (nanos % 0x1_0000_0000) as u32;
    if low == 0 {
        1
    } else {
        low
    }
}

/// A fresh challenge from the current time in nanoseconds; never 0.
pub fn generate_challenge() -> (r: u32)
    ensures
        r != 0,
{
    let nanos = unix_time_nanos();
    challenge_from_nanos(nanos)
}

} // verus!
