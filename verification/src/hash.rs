//! Content digests and integrity verification: SHA-256 for package
//! verification, MD5 for the device identifier, and the case-insensitive
//! comparison of hexadecimal digest strings.

use vstd::prelude::*;
use vstd::utf8::encode_utf8;

verus! {

/// The lowercase hexadecimal SHA-256 digest of a byte sequence.
pub uninterp spec fn sha256_hex_of(data: Seq<u8>) -> Seq<char>;

/// The lowercase hexadecimal MD5 digest of a byte sequence.
pub uninterp spec fn md5_hex_of(data: Seq<u8>) -> Seq<char>;

/// An ASCII decimal digit or lowercase hexadecimal letter.
pub open spec fn is_lower_hex_char(c: char) -> bool {
    (48 <= c as u32 <= 57) || (97 <= c as u32 <= 102)
}

/// ASCII lowercasing of one character.
pub open spec fn spec_lower_char(c: char) -> char {
    if 65 <= c as u32 <= 90 {
        (((c as u32) + 32) as u8) as char
    } else {
        c
    }
}

/// ASCII lowercasing of a character sequence.
pub open spec fn spec_lower(s: Seq<char>) -> Seq<char> {
    s.map_values(|c: char| spec_lower_char(c))
}

/// ASCII uppercasing of one lowercase hexadecimal character.
pub open spec fn spec_upper_hex_char(c: char) -> char {
    if 97 <= c as u32 <= 102 {
        (((c as u32) - 32) as u8) as char
    } else {
        c
    }
}

/// ASCII uppercasing of a lowercase hexadecimal character sequence.
pub open spec fn spec_upper_hex(s: Seq<char>) -> Seq<char> {
    s.map_values(|c: char| spec_upper_hex_char(c))
}

/// Relies on chksum_sha2_256::hash and Digest::to_hex_lowercase: the digest
/// of in-memory bytes depends on the bytes alone and is rendered as exactly
/// 64 lowercase hexadecimal characters.
#[verifier::external_body]
fn sha256_hex(data: &[u8]) -> (r: String)
    ensures
        r@ == sha256_hex_of(data@),
        r@.len() == 64,
        forall|i: int| 0 <= i < r@.len() ==> is_lower_hex_char(#[trigger] r@[i]),
{
    chksum_sha2_256::hash(data).to_hex_lowercase()
}

/// Relies on chksum_md5::hash and Digest::to_hex_lowercase: the digest of
/// in-memory bytes depends on the bytes alone and is rendered as exactly
/// 32 lowercase hexadecimal characters.
#[verifier::external_body]
fn md5_hex(data: &[u8]) -> (r: String)
    ensures
        r@ == md5_hex_of(data@),
        r@.len() == 32,
        forall|i: int| 0 <= i < r@.len() ==> is_lower_hex_char(#[trigger] r@[i]),
{
    chksum_md5::hash(data).to_hex_lowercase()
}

/// ASCII lowercasing of one character, executably.
fn lower_char(c: char) -> (r: char)
    ensures
        r == spec_lower_char(c),
{
    let u = c as u32;
    if 65 <= u && u <= 90 {
        ((u + 32) as u8) as char
    } else {
        c
    }
}

/// Whether two hexadecimal digest strings name the same digest, compared
/// case-insensitively (both sides normalized to ASCII lowercase).
pub fn digests_match(a: &str, b: &str) -> (r: bool)
    ensures
        r == (spec_lower(a@) == spec_lower(b@)),
{
    let na = a.unicode_len();
    let nb = b.unicode_len();
    if na != nb {
        proof {
            assert(spec_lower(a@).len() != spec_lower(b@).len());
        }
        return false;
    }
    let mut i: usize = 0;
    while i < na
        invariant
            na == a@.len(),
            na == b@.len(),
            0 <= i <= na,
            forall|k: int| 0 <= k < i ==> spec_lower(a@)[k] == spec_lower(b@)[k],
        decreases na - i,
    {
        let ca = lower_char(a.get_char(i));
        let cb = lower_char(b.get_char(i));
        if ca != cb {
            proof {
                assert(spec_lower(a@)[i as int] != spec_lower(b@)[i as int]);
            }
            return false;
        }
        i = i + 1;
    }
    proof {
        assert(spec_lower(a@) =~= spec_lower(b@));
    }
    true
}

/// The SHA-256 digest of a string's bytes, as lowercase hexadecimal.
pub fn run_sha256_hash(ctn: &str) -> (r: String)
    ensures
        r@ == sha256_hex_of(encode_utf8(ctn@)),
        r@.len() == 64,
{
    sha256_hex(ctn.as_bytes())
}

/// The SHA-256 digest of in-memory content, as lowercase hexadecimal.
pub fn hash_bytes_sha256(data: &[u8]) -> (r: String)
    ensures
        r@ == sha256_hex_of(data@),
        r@.len() == 64,
        forall|i: int| 0 <= i < r@.len() ==> is_lower_hex_char(#[trigger] r@[i]),
{
    sha256_hex(data)
}

/// The MD5 digest of a string's bytes, as lowercase hexadecimal.
pub fn run_md5_hash(ctn: &str) -> (r: String)
    ensures
        r@ == md5_hex_of(encode_utf8(ctn@)),
        r@.len() == 32,
        forall|i: int| 0 <= i < r@.len() ==> is_lower_hex_char(#[trigger] r@[i]),
{
    md5_hex(ctn.as_bytes())
}

/// Verifies downloaded content against an expected hexadecimal SHA-256
/// digest. True exactly when the content's digest equals the expectation,
/// compared case-insensitively.
pub fn verify_bytes(data: &[u8], expected_hex: &str) -> (r: bool)
    ensures
        r == (spec_lower(sha256_hex_of(data@)) == spec_lower(expected_hex@)),
{
    let actual = sha256_hex(data);
    digests_match(actual.as_str(), expected_hex)
}

/// Lowercasing a string that is already lowercase hexadecimal changes
/// nothing; hence a digest rendered by the library always verifies against
/// itself, whatever the case of the expectation's letters.
pub proof fn lemma_lower_fixes_lower_hex(s: Seq<char>)
    requires
        forall|i: int| 0 <= i < s.len() ==> is_lower_hex_char(#[trigger] s[i]),
    ensures
        spec_lower(s) == s,
{
    assert forall|i: int| 0 <= i < s.len() implies spec_lower(s)[i] == s[i] by {
        assert(is_lower_hex_char(s[i]));
    }
    assert(spec_lower(s) =~= s);
}

} // verus!
