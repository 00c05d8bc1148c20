//! SHA-256 digests of text and bytes, written as lowercase hexadecimal.
use vstd::prelude::*;
use sha2::Digest;
use crate::text::push_char;

verus! {

/// What SHA-256 gives for the bytes `data`.
pub uninterp spec fn sha256(data: Seq<u8>) -> Seq<u8>;

/// Calls `sha2::Sha256::digest`. The digest is named by `sha256` of the
/// input bytes; that it is 32 bytes long is the fixed output size of
/// SHA-256. Nothing else about the hash function is stated.
#[verifier::external_body]
fn sha256_digest(data: &[u8]) -> (r: Vec<u8>)
    ensures
        r@ == sha256(data@),
        r@.len() == 32,
{
    sha2::Sha256::digest(data).to_vec()
}

/// The lowercase hexadecimal digit for `n` (below 16).
pub open spec fn hex_digit(n: int) -> char {
    if n < 10 {
        (0x30 + n) as char
    } else {
        (0x61 + n - 10) as char
    }
}

/// `data` written as lowercase hexadecimal, two digits per byte, high
/// nibble first.
pub open spec fn hex_lower(data: Seq<u8>) -> Seq<char>
    decreases data.len(),
{
    if data.len() == 0 {
        Seq::empty()
    } else {
        hex_lower(data.drop_last()) + seq![
            hex_digit(data.last() as int / 16),
            hex_digit(data.last() as int % 16),
        ]
    }
}

/// The lowercase hexadecimal digit for `n`.
fn hex_char(n: u8) -> (c: char)
    requires
        n < 16,
    ensures
        c == hex_digit(n as int),
{
    if n < 10 {
        (0x30u8 + n) as char
    } else {
        (0x61u8 + n - 10) as char
    }
}

/// `data` written as lowercase hexadecimal.
pub fn to_hex_lower(data: &[u8]) -> (r: String)
    ensures
        r@ == hex_lower(data@),
{
    let mut r = String::new();
    let mut i: usize = 0;
    while i < data.len()
        invariant
            i <= data.len(),
            r@ == hex_lower(data@.subrange(0, i as int)),
        decreases data.len() - i,
    {
        let b = data[i];
        push_char(&mut r, hex_char(b / 16));
        push_char(&mut r, hex_char(b % 16));
        assert(data@.subrange(0, i + 1).drop_last() =~= data@.subrange(0, i as int));
        assert(r@ =~= hex_lower(data@.subrange(0, i + 1)));
        i = i + 1;
    }
    assert(data@.subrange(0, data.len() as int) =~= data@);
    r
}

/// The SHA-256 digest of `data` in lowercase hexadecimal.
pub fn sha256_hex(data: &[u8]) -> (r: String)
    ensures
        r@ == hex_lower(sha256(data@)),
        r@.len() == 64,
{
    let digest = sha256_digest(data);
    proof {
        hex_lower_len(digest@);
    }
    to_hex_lower(digest.as_slice())
}

/// The hash that identifies a piece of text: the lowercase hexadecimal
/// SHA-256 digest of its UTF-8 bytes.
pub open spec fn text_hash(text: Seq<char>) -> Seq<char> {
    hex_lower(sha256(vstd::utf8::encode_utf8(text)))
}

/// The hash that identifies a piece of text.
pub fn hash_text(text: &str) -> (r: String)
    ensures
        r@ == text_hash(text@),
        r@.len() == 64,
{
    sha256_hex(text.as_bytes())
}

/// A digest in hexadecimal is always twice as long as the digest.
pub proof fn hex_lower_len(data: Seq<u8>)
    ensures
        hex_lower(data).len() == 2 * data.len(),
    decreases data.len(),
{
    if data.len() > 0 {
        hex_lower_len(data.drop_last());
    }
}

} // verus!
