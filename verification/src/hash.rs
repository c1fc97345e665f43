//! Content fingerprints: the SHA-256 digest of a file's bytes, written as
//! upper-case hexadecimal. The store hashes the same way, so a fingerprint
//! computed here can be held against one it reports.

use sha2::digest::FixedOutput;
use sha2::Digest;
use vstd::prelude::*;
use crate::text::chars_of;

verus! {

/// The SHA-256 digest of `content`, as `sha2::Sha256` computes it. It has
/// no definition here: `sha256_digest` ties it to what the crate returns.
pub uninterp spec fn sha256(content: Seq<u8>) -> Seq<u8>;

/// Runs `sha2::Sha256` over `content` in one piece: `Digest::new`, one
/// `update`, then `finalize_fixed`. Trusted: the digest is a function of the
/// bytes alone, and `Sha256` has an output size of 32 bytes.
#[verifier::external_body]
fn sha256_digest(content: &[u8]) -> (digest: Vec<u8>)
    ensures
        digest@ == sha256(content@),
        digest@.len() == 32,
{
    let mut hasher = sha2::Sha256::new();
    hasher.update(content);
    hasher.finalize_fixed().to_vec()
}

/// The upper-case hexadecimal digit for a value below 16.
pub open spec fn hex_digit(nibble: int) -> char {
    if nibble < 10 {
        ('0' as int + nibble) as char
    } else {
        ('A' as int + nibble - 10) as char
    }
}

/// Two upper-case hexadecimal digits per byte, high half first.
pub open spec fn upper_hex(bytes: Seq<u8>) -> Seq<char> {
    Seq::new(
        2 * bytes.len(),
        |i: int|
            if i % 2 == 0 {
                hex_digit(bytes[i / 2] as int / 16)
            } else {
                hex_digit(bytes[i / 2] as int % 16)
            },
    )
}

/// Whether `text` is made of digits and of capital letters from `A` to `F`
/// alone.
pub open spec fn is_upper_hex(text: Seq<char>) -> bool {
    forall|i: int|
        0 <= i < text.len() ==> {
            let c = #[trigger] text[i];
            '0' <= c <= '9' || 'A' <= c <= 'F'
        }
}

/// The fingerprint of `content`.
pub open spec fn fingerprint(content: Seq<u8>) -> Seq<char> {
    upper_hex(sha256(content))
}

/// `c` with an ASCII capital letter replaced by its small letter.
pub open spec fn fold_case(c: char) -> char {
    if 'A' <= c <= 'Z' {
        (c as int + 32) as char
    } else {
        c
    }
}

/// Whether two fingerprints are the same but for the case of their letters.
pub open spec fn same_fingerprint(a: Seq<char>, b: Seq<char>) -> bool {
    &&& a.len() == b.len()
    &&& forall|i: int| 0 <= i < a.len() ==> fold_case(#[trigger] a[i]) == fold_case(b[i])
}

fn hex_digit_of(nibble: u8) -> (c: char)
    requires
        nibble < 16,
    ensures
        c == hex_digit(nibble as int),
{
    if nibble < 10 {
        (48u8 + nibble) as char
    } else {
        (55u8 + nibble) as char
    }
}

/// Writes `bytes` as upper-case hexadecimal.
pub fn to_upper_hex(bytes: &[u8]) -> (hex: String)
    ensures
        hex@ == upper_hex(bytes@),
{
    let mut hex = String::new();
    let mut i: usize = 0;
    while i < bytes.len()
        invariant
            i <= bytes@.len(),
            hex@ == upper_hex(bytes@.take(i as int)),
        decreases bytes@.len() - i,
    {
        let b = bytes[i];
        hex.push(hex_digit_of(b / 16));
        hex.push(hex_digit_of(b % 16));
        assert(hex@ == upper_hex(bytes@.take(i + 1)));
        i += 1;
    }
    assert(bytes@.take(i as int) == bytes@);
    hex
}

/// The fingerprint of `content`: its SHA-256 digest in upper-case
/// hexadecimal, 64 characters long. Every buffer has one, the empty buffer
/// too, and the same bytes always have the same.
pub fn generate_hash(content: &[u8]) -> (hash: String)
    ensures
        hash@ == fingerprint(content@),
        hash@.len() == 64,
        is_upper_hex(hash@),
{
    let digest = sha256_digest(content);
    to_upper_hex(digest.as_slice())
}

fn fold_case_of(c: char) -> (folded: char)
    ensures
        folded == fold_case(c),
{
    if 'A' <= c && c <= 'Z' {
        ((c as u8) + 32) as char
    } else {
        c
    }
}

/// Compares two fingerprints without regard to the case of their letters.
pub fn fingerprints_match(a: &str, b: &str) -> (same: bool)
    ensures
        same == same_fingerprint(a@, b@),
{
    let xs = chars_of(a);
    let ys = chars_of(b);
    if xs.len() != ys.len() {
        return false;
    }
    let mut i: usize = 0;
    while i < xs.len()
        invariant
            i <= xs@.len(),
            xs@ == a@,
            ys@ == b@,
            xs@.len() == ys@.len(),
            forall|j: int| 0 <= j < i ==> fold_case(#[trigger] xs@[j]) == fold_case(ys@[j]),
        decreases xs@.len() - i,
    {
        if fold_case_of(xs[i]) != fold_case_of(ys[i]) {
            assert(fold_case(xs@[i as int]) != fold_case(ys@[i as int]));
            return false;
        }
        i += 1;
    }
    true
}

/// Hexadecimal takes two characters for a byte, each a digit or a capital
/// letter from `A` to `F`.
pub proof fn lemma_upper_hex_shape(bytes: Seq<u8>)
    ensures
        upper_hex(bytes).len() == 2 * bytes.len(),
        is_upper_hex(upper_hex(bytes)),
{
}

/// Comparing fingerprints is an equivalence: a fingerprint is the same as
/// itself, and so the same bytes always compare as unchanged.
pub proof fn lemma_same_fingerprint_equivalence(a: Seq<char>, b: Seq<char>, c: Seq<char>)
    ensures
        same_fingerprint(a, a),
        same_fingerprint(a, b) == same_fingerprint(b, a),
        same_fingerprint(a, b) && same_fingerprint(b, c) ==> same_fingerprint(a, c),
{
}

} // verus!
