//! The request signature and the response check. Both use the same
//! construction: base64 of SHA-256 over the UTF-8 text followed by the
//! shared secret's UTF-8 bytes.
use vstd::prelude::*;
use vstd::string::StringExecFns;
use vstd::utf8::encode_utf8;
use crate::outside::{base64_encode, base64_of, base64_shaped, is_base64_digit, sha256, sha256_of};
use crate::text::{concat_bytes, decimal, push_decimal};

verus! {

/// The text a request signature covers: `client_id:timestamp:nonce`.
pub open spec fn sign_text(client_id: Seq<char>, timestamp: nat, nonce: Seq<char>) -> Seq<char> {
    client_id + seq![':'] + decimal(timestamp) + seq![':'] + nonce
}

/// The secret-appended digest of a text: base64(SHA-256(text ++ secret)).
pub open spec fn digest_text(text: Seq<char>, secret: Seq<char>) -> Seq<char> {
    base64_of(sha256_of(encode_utf8(text) + encode_utf8(secret)))
}

/// The signature of a request with the given fields under `secret`.
pub open spec fn signature_of(
    client_id: Seq<char>,
    timestamp: nat,
    nonce: Seq<char>,
    secret: Seq<char>,
) -> Seq<char> {
    digest_text(sign_text(client_id, timestamp, nonce), secret)
}

/// Whether `claimed` is the digest of `text` under `secret`.
pub open spec fn signature_accepted(text: Seq<char>, claimed: Seq<char>, secret: Seq<char>) -> bool {
    digest_text(text, secret) == claimed
}

/// The shape of the base64 text of a SHA-256 digest: 43 alphabet characters
/// followed by one `=`.
pub open spec fn digest_shaped(t: Seq<char>) -> bool {
    &&& t.len() == 44
    &&& forall|i: int| 0 <= i < 43 ==> #[trigger] is_base64_digit(t[i])
    &&& t[43] == '='
}

/// Computes base64(SHA-256(text ++ secret)).
pub fn digest(text: &str, secret: &str) -> (r: String)
    ensures
        r@ == digest_text(text@, secret@),
        digest_shaped(r@),
{
    let message = concat_bytes(text.as_bytes(), secret.as_bytes());
    let hash = sha256(message.as_slice());
    let r = base64_encode(hash.as_slice());
    assert(base64_shaped(r@, 32));
    r
}

/// Builds the text `client_id:timestamp:nonce` that a request signature covers.
pub fn signing_text(client_id: &str, timestamp: u64, nonce: &str) -> (r: String)
    ensures
        r@ == sign_text(client_id@, timestamp as nat, nonce@),
{
    proof {
        reveal_strlit(":");
    }
    let mut s = client_id.to_owned();
    s.append(":");
    push_decimal(&mut s, timestamp);
    s.append(":");
    s.append(nonce);
    s
}

/// Signs a request: base64(SHA-256("client_id:timestamp:nonce" ++ secret)).
pub fn sign(client_id: &str, timestamp: u64, nonce: &str, secret: &str) -> (r: String)
    ensures
        r@ == signature_of(client_id@, timestamp as nat, nonce@, secret@),
        digest_shaped(r@),
{
    let text = signing_text(client_id, timestamp, nonce);
    digest(text.as_str(), secret)
}

/// Checks a claimed signature against the digest of `text` under `secret`.
pub fn verify(text: &str, claimed: &str, secret: &str) -> (r: bool)
    ensures
        r == signature_accepted(text@, claimed@, secret@),
{
    let expected = digest(text, secret);
    let claimed_owned = claimed.to_owned();
    expected == claimed_owned
}

/// Signing is deterministic, and a signature is accepted by `verify` when
/// checked against its own signing text with the same secret.
pub proof fn lemma_sign_then_verify(
    client_id: Seq<char>,
    timestamp: nat,
    nonce: Seq<char>,
    secret: Seq<char>,
    first: Seq<char>,
    second: Seq<char>,
)
    requires
        first == signature_of(client_id, timestamp, nonce, secret),
        second == signature_of(client_id, timestamp, nonce, secret),
    ensures
        first == second,
        signature_accepted(sign_text(client_id, timestamp, nonce), first, secret),
{
}

} // verus!
