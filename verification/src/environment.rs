//! Content addressing for consolidated attachments.
//!
//! The same file name may be submitted many times with different content,
//! and the same content may be submitted under different names, so each
//! consolidated attachment goes into a subfolder named after the head of
//! the SHA-256 digest of its content. Only the digest itself comes from
//! the `sha2` crate; everything derived from it is verified.

use sha2::Digest;
use sha2::Sha256;
use vstd::prelude::*;

verus! {

/// The SHA-256 digest of a byte sequence, named but not written out: the
/// trusted wrapper below ties it to `sha2`.
pub uninterp spec fn sha256_of(data: Seq<u8>) -> Seq<u8>;

/// Relies on `sha2::Sha256` through the `Digest` trait: the digest is a
/// pure function of the input bytes and is exactly 32 bytes long.
#[verifier::external_body]
fn sha256_digest(data: &Vec<u8>) -> (r: Vec<u8>)
    ensures
        r@ == sha256_of(data@),
        r@.len() == 32,
{
    Sha256::digest(data.as_slice()).as_slice().to_vec()
}

/// The lower-case hex digit for a value below 16.
pub open spec fn hex_digit_lower(n: u8) -> char
    recommends
        n < 16,
{
    if n < 10 {
        (48 + n) as char  // '0' + n
    } else {
        (87 + n) as char  // 'a' + (n - 10)
    }
}

/// The first four hex characters of a digest: its first two bytes,
/// lower-case, high nibble first.
pub open spec fn sha_head_chars(digest: Seq<u8>) -> Seq<char>
    recommends
        digest.len() >= 2,
{
    seq![
        hex_digit_lower(digest[0] / 16),
        hex_digit_lower(digest[0] % 16),
        hex_digit_lower(digest[1] / 16),
        hex_digit_lower(digest[1] % 16),
    ]
}

/// The one-character string for a lower-case hex digit.
fn hex_char_str(n: u8) -> (r: &'static str)
    requires
        n < 16,
    ensures
        r@ == seq![hex_digit_lower(n)],
{
    proof {
        reveal_strlit("0");
        reveal_strlit("1");
        reveal_strlit("2");
        reveal_strlit("3");
        reveal_strlit("4");
        reveal_strlit("5");
        reveal_strlit("6");
        reveal_strlit("7");
        reveal_strlit("8");
        reveal_strlit("9");
        reveal_strlit("a");
        reveal_strlit("b");
        reveal_strlit("c");
        reveal_strlit("d");
        reveal_strlit("e");
        reveal_strlit("f");
    }
    match n {
        0 => "0",
        1 => "1",
        2 => "2",
        3 => "3",
        4 => "4",
        5 => "5",
        6 => "6",
        7 => "7",
        8 => "8",
        9 => "9",
        10 => "a",
        11 => "b",
        12 => "c",
        13 => "d",
        14 => "e",
        _ => "f",
    }
}

/// The first four hex characters of the given digest.
pub fn sha_head(digest: &Vec<u8>) -> (r: String)
    requires
        digest@.len() >= 2,
    ensures
        r@ == sha_head_chars(digest@),
{
    let b0 = digest[0];
    let b1 = digest[1];
    let mut r = String::new();
    r.append(hex_char_str(b0 / 16));
    r.append(hex_char_str(b0 % 16));
    r.append(hex_char_str(b1 / 16));
    r.append(hex_char_str(b1 % 16));
    proof {
        assert(r@ =~= sha_head_chars(digest@));
    }
    r
}

/// The subfolder name derived from an attachment's content: the head of
/// its SHA-256 digest.
pub fn make_subfolder_name_from_content(content: &Vec<u8>) -> (r: String)
    ensures
        r@ == sha_head_chars(sha256_of(content@)),
{
    let digest = sha256_digest(content);
    sha_head(&digest)
}

/// The fixed subfolder name used when the content could not be read and
/// so could not be hashed.
pub open spec fn fallback_subdir_chars() -> Seq<char> {
    "xxxxxxxx"@
}

/// The fallback subfolder name as a string.
pub fn fallback_tmp_subdir_path() -> (r: String)
    ensures
        r@ == fallback_subdir_chars(),
{
    String::from_str("xxxxxxxx")
}

} // verus!
