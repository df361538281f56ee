//! The checksum gate of self-upgrade: a downloaded binary is used only if
//! its SHA-256 digest, written as lower-case hexadecimal, is the published
//! checksum.

use sha2::{Digest, Sha256};
use vstd::prelude::*;
use crate::text::to_chars;

verus! {

/// The SHA-256 digest of `data`, as the `sha2` crate computes it.
pub uninterp spec fn sha256(data: Seq<u8>) -> Seq<u8>;

/// Calls `sha2::Sha256::digest`, the one-shot form of the hash. The result
/// is the digest of exactly the bytes given, and has the 32 bytes that an
/// output of SHA-256 has.
#[verifier::external_body]
fn sha256_digest(data: &[u8]) -> (digest: Vec<u8>)
    ensures
        digest@ == sha256(data@),
        digest@.len() == 32,
{
    Sha256::digest(data).to_vec()
}

/// The lower-case hexadecimal digit for a value below 16.
pub open spec fn hex_digit(value: int) -> char {
    if value < 10 {
        ('0' as int + value) as char
    } else {
        ('a' as int + value - 10) as char
    }
}

/// The bytes written as lower-case hexadecimal, two digits for each byte,
/// the high half first.
pub open spec fn hex_lower(bytes: Seq<u8>) -> Seq<char> {
    Seq::new(
        2 * bytes.len(),
        |i: int|
            if i % 2 == 0 {
                hex_digit(bytes[i / 2] as int / 16)
            } else {
                hex_digit(bytes[i / 2] as int % 16)
            },
    )
}

/// Executable form of [`hex_digit`].
fn hex_char(value: u8) -> (digit: char)
    requires
        value < 16,
    ensures
        digit == hex_digit(value as int),
{
    if value < 10 {
        (48 + value) as char
    } else {
        (87 + value) as char
    }
}

/// Whether `expected` is `digest` written as lower-case hexadecimal.
pub fn digest_matches(digest: &[u8], expected: &str) -> (matches: bool)
    ensures
        matches == (expected@ == hex_lower(digest@)),
{
    let chars = to_chars(expected);
    let n = digest.len();
    if chars.len() % 2 != 0 || chars.len() / 2 != n {
        return false;
    }
    let mut i: usize = 0;
    while i < n
        invariant
            chars@ == expected@,
            n == digest@.len(),
            chars@.len() == 2 * n,
            chars@.len() <= usize::MAX,
            i <= n,
            forall|j: int| 0 <= j < 2 * i ==> chars@[j] == #[trigger] hex_lower(digest@)[j],
        decreases n - i,
    {
        let byte = digest[i];
        let high = hex_char(byte / 16);
        let low = hex_char(byte % 16);
        if chars[2 * i] != high || chars[2 * i + 1] != low {
            assert(hex_lower(digest@)[2 * i] == high);
            assert(hex_lower(digest@)[2 * i + 1] == low);
            return false;
        }
        i += 1;
    }
    assert(expected@ =~= hex_lower(digest@));
    true
}

/// Whether the SHA-256 digest of `candidate` is the published checksum
/// `expected`.
pub fn candidate_matches(candidate: &[u8], expected: &str) -> (matches: bool)
    ensures
        matches == (expected@ == hex_lower(sha256(candidate@))),
{
    let digest = sha256_digest(candidate);
    digest_matches(digest.as_slice(), expected)
}

} // verus!
