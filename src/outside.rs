//! Calls into outside crates, each behind a contract that states what the
//! crate's documentation and source promise.
use vstd::prelude::*;
use base64::Engine;
use sha2::Digest;

verus! {

/// The SHA-256 digest of a byte string.
pub uninterp spec fn sha256_of(data: Seq<u8>) -> Seq<u8>;

/// The standard (padded) base64 text of a byte string.
pub uninterp spec fn base64_of(data: Seq<u8>) -> Seq<char>;

/// A character of the standard base64 alphabet: `A`-`Z`, `a`-`z`, `0`-`9`, `+`, `/`.
pub open spec fn is_base64_digit(c: char) -> bool {
    ('A' <= c && c <= 'Z') || ('a' <= c && c <= 'z') || ('0' <= c && c <= '9') || c == '+' || c
        == '/'
}

/// The number of `=` characters that end the padded base64 text of `n` bytes.
pub open spec fn base64_padding(n: nat) -> nat {
    if n % 3 == 0 {
        0
    } else {
        (3 - n % 3) as nat
    }
}

/// `text` has the shape of the padded base64 text of `n` bytes: four
/// characters for every started group of three bytes, alphabet characters
/// first, then the `=` padding.
pub open spec fn base64_shaped(text: Seq<char>, n: nat) -> bool {
    &&& text.len() == 4 * ((n + 2) / 3)
    &&& forall|i: int|
        0 <= i < text.len() - base64_padding(n) ==> #[trigger] is_base64_digit(text[i])
    &&& forall|i: int| text.len() - base64_padding(n) <= i < text.len() ==> #[trigger] text[i] == '='
}

/// The JSON string literal (quotes and escapes included) that serde_json writes for a text.
pub uninterp spec fn json_quoted_of(s: Seq<char>) -> Seq<char>;

/// Relies on sha2::Sha256::digest: the 32-byte SHA-256 digest of `data`.
#[verifier::external_body]
pub(crate) fn sha256(data: &[u8]) -> (r: Vec<u8>)
    ensures
        r@ == sha256_of(data@),
        r@.len() == 32,
{
    sha2::Sha256::digest(data).to_vec()
}

/// Relies on base64's STANDARD engine `encode`: padded base64 over the
/// standard alphabet, four characters for every started group of three bytes,
/// with one `=` for a final group of two bytes and two for a final group of
/// one. It panics only when that length overflows `usize`, which the bound
/// rules out.
#[verifier::external_body]
pub(crate) fn base64_encode(data: &[u8]) -> (r: String)
    requires
        data@.len() <= 0x3fff_ffff,
    ensures
        r@ == base64_of(data@),
        base64_shaped(r@, data@.len()),
{
    base64::engine::general_purpose::STANDARD.encode(data)
}

/// Relies on serde_json::to_string applied to a `str`: the quoted, escaped
/// JSON string. A `str` is serialised into an in-memory buffer, which has no
/// failing path, so the `Err` arm of its `Result` is never taken.
#[verifier::external_body]
pub(crate) fn json_quote(s: &str) -> (r: String)
    ensures
        r@ == json_quoted_of(s@),
{
    serde_json::to_string(s).unwrap_or_default()
}

/// Relies on uuid::Uuid::new_v4 and its hyphenated text form: a fresh random
/// identifier. Nothing is promised of its value.
#[verifier::external_body]
pub(crate) fn fresh_nonce() -> (r: String) {
    uuid::Uuid::new_v4().to_string()
}

} // verus!
