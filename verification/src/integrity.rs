//! Package integrity verification.
//!
//! Downloaded package bytes are digested with SHA-256 and the hex rendering
//! of the digest is compared, case-insensitively, against the digest the
//! manifest declares. The digest itself comes from an outside implementation;
//! the hex rendering and the comparison are verified here.

use sha2::Digest;
use vstd::prelude::*;

use crate::error::PluginError;
use crate::text::{chars_to_string, str_to_chars};

verus! {

/// The SHA-256 digest of a byte sequence. The outside implementation
/// computes it; the contracts here only name it.
pub uninterp spec fn sha256_of(bytes: Seq<u8>) -> Seq<u8>;

/// Relies on sha2's `Sha256` (through the `Digest` trait): the digest is a
/// function of the input bytes alone, and is exactly 32 bytes long.
#[verifier::external_body]
fn sha256_digest(bytes: &[u8]) -> (r: Vec<u8>)
    ensures
        r@ == sha256_of(bytes@),
        r@.len() == 32,
{
    sha2::Sha256::digest(bytes).to_vec()
}

/// The lowercase hex digit character for `d` (0 to 15).
pub open spec fn hex_char(d: int) -> char {
    if d < 10 {
        crate::store::digit_char(d)
    } else if d == 10 {
        'a'
    } else if d == 11 {
        'b'
    } else if d == 12 {
        'c'
    } else if d == 13 {
        'd'
    } else if d == 14 {
        'e'
    } else {
        'f'
    }
}

/// The two lowercase hex digits of one byte.
pub open spec fn byte_hex(b: u8) -> Seq<char> {
    seq![hex_char(b as int / 16), hex_char(b as int % 16)]
}

/// The lowercase hex rendering of a byte sequence.
pub open spec fn hex_of(bytes: Seq<u8>) -> Seq<char>
    decreases bytes.len(),
{
    if bytes.len() == 0 {
        Seq::empty()
    } else {
        hex_of(bytes.drop_last()) + byte_hex(bytes.last())
    }
}

/// A lowercase hex digit character.
pub open spec fn is_lower_hex_char(c: char) -> bool {
    ('0' <= c && c <= '9') || ('a' <= c && c <= 'f')
}

/// A hex rendering is twice as long as its bytes and made of lowercase hex
/// digits.
pub proof fn lemma_hex_of_shape(bytes: Seq<u8>)
    ensures
        hex_of(bytes).len() == 2 * bytes.len(),
        forall|k: int| 0 <= k < hex_of(bytes).len() ==> is_lower_hex_char(#[trigger] hex_of(bytes)[k]),
    decreases bytes.len(),
{
    if bytes.len() > 0 {
        lemma_hex_of_shape(bytes.drop_last());
        let b = bytes.last();
        assert(is_lower_hex_char(hex_char(b as int / 16)));
        assert(is_lower_hex_char(hex_char(b as int % 16)));
    }
}

/// Hex characters compared without case: uppercase `A` to `F` fold onto
/// their lowercase forms.
pub open spec fn fold_hex_char(c: char) -> char {
    if c == 'A' {
        'a'
    } else if c == 'B' {
        'b'
    } else if c == 'C' {
        'c'
    } else if c == 'D' {
        'd'
    } else if c == 'E' {
        'e'
    } else if c == 'F' {
        'f'
    } else {
        c
    }
}

/// Case-insensitive equality of two hex strings.
pub open spec fn hex_eq_ci(a: Seq<char>, b: Seq<char>) -> bool {
    a.len() == b.len() && forall|k: int|
        0 <= k < a.len() ==> fold_hex_char(a[k]) == fold_hex_char(b[k])
}

/// Whether downloaded bytes digest to the digest a manifest declares,
/// compared case-insensitively.
pub open spec fn checksum_matches(bytes: Seq<u8>, declared: Seq<char>) -> bool {
    hex_eq_ci(hex_of(sha256_of(bytes)), declared)
}

fn hex_char_of(d: u8) -> (r: char)
    requires
        d < 16,
    ensures
        r == hex_char(d as int),
{
    if d == 0 {
        '0'
    } else if d == 1 {
        '1'
    } else if d == 2 {
        '2'
    } else if d == 3 {
        '3'
    } else if d == 4 {
        '4'
    } else if d == 5 {
        '5'
    } else if d == 6 {
        '6'
    } else if d == 7 {
        '7'
    } else if d == 8 {
        '8'
    } else if d == 9 {
        '9'
    } else if d == 10 {
        'a'
    } else if d == 11 {
        'b'
    } else if d == 12 {
        'c'
    } else if d == 13 {
        'd'
    } else if d == 14 {
        'e'
    } else {
        'f'
    }
}

fn hex_encode(bytes: &Vec<u8>) -> (r: Vec<char>)
    ensures
        r@ == hex_of(bytes@),
{
    let mut out: Vec<char> = Vec::new();
    let mut k: usize = 0;
    while k < bytes.len()
        invariant
            k <= bytes@.len(),
            out@ == hex_of(bytes@.subrange(0, k as int)),
        decreases bytes@.len() - k,
    {
        let b = bytes[k];
        out.push(hex_char_of(b / 16));
        out.push(hex_char_of(b % 16));
        proof {
            assert(bytes@.subrange(0, k + 1 as int).drop_last() =~= bytes@.subrange(0, k as int));
            assert(out@ =~= hex_of(bytes@.subrange(0, k as int)) + byte_hex(bytes@[k as int]));
        }
        k = k + 1;
    }
    proof {
        assert(bytes@.subrange(0, bytes@.len() as int) =~= bytes@);
    }
    out
}

fn hex_eq_ci_exec(a: &Vec<char>, b: &Vec<char>) -> (r: bool)
    ensures
        r == hex_eq_ci(a@, b@),
{
    if a.len() != b.len() {
        return false;
    }
    let mut k: usize = 0;
    while k < a.len()
        invariant
            a@.len() == b@.len(),
            k <= a@.len(),
            forall|m: int| 0 <= m < k ==> fold_hex_char(a@[m]) == fold_hex_char(b@[m]),
        decreases a@.len() - k,
    {
        let ca = fold_hex_char_of(a[k]);
        let cb = fold_hex_char_of(b[k]);
        if ca != cb {
            return false;
        }
        k = k + 1;
    }
    true
}

fn fold_hex_char_of(c: char) -> (r: char)
    ensures
        r == fold_hex_char(c),
{
    if c == 'A' {
        'a'
    } else if c == 'B' {
        'b'
    } else if c == 'C' {
        'c'
    } else if c == 'D' {
        'd'
    } else if c == 'E' {
        'e'
    } else if c == 'F' {
        'f'
    } else {
        c
    }
}

/// The hex rendering of the SHA-256 digest of the given bytes: exactly 64
/// lowercase hex characters.
pub fn digest_string(bytes: &[u8]) -> (r: String)
    ensures
        r@ == hex_of(sha256_of(bytes@)),
        r@.len() == 64,
        forall|k: int| 0 <= k < r@.len() ==> is_lower_hex_char(#[trigger] r@[k]),
{
    let digest = sha256_digest(bytes);
    let chars = hex_encode(&digest);
    proof {
        lemma_hex_of_shape(digest@);
    }
    chars_to_string(&chars)
}

/// Verifies downloaded package bytes against the digest the manifest
/// declares. Succeeds exactly when the SHA-256 digest of `bytes` matches
/// `checksum`, compared case-insensitively; on mismatch the error names both
/// digests.
pub fn verify_checksum(bytes: &[u8], checksum: &str) -> (r: Result<(), PluginError>)
    ensures
        r is Ok <==> checksum_matches(bytes@, checksum@),
        r matches Err(e) ==> (e matches PluginError::IntegrityMismatch { expected, actual }
            && expected@ == checksum@ && actual@ == hex_of(sha256_of(bytes@))),
{
    let digest = sha256_digest(bytes);
    let computed = hex_encode(&digest);
    let declared = str_to_chars(checksum);
    if hex_eq_ci_exec(&computed, &declared) {
        Ok(())
    } else {
        Err(
            PluginError::IntegrityMismatch {
                expected: crate::text::chars_to_string(&declared),
                actual: chars_to_string(&computed),
            },
        )
    }
}

} // verus!
