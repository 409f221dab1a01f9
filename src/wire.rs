//! The two messages of an exchange and their JSON text. Field order is fixed,
//! and so is the text that a response signature is checked against.
use vstd::prelude::*;
use vstd::string::StringExecFns;
use crate::outside::{json_quote, json_quoted_of};
use crate::text::{decimal, push_decimal};

verus! {

/// A request as sent: signed identity fields, the prior session if any, and
/// the opaque payload.
#[derive(Debug, Clone, PartialEq, Eq)]
pub struct SignedRequest {
    pub client_id: String,
    pub timestamp: u64,
    pub nonce: String,
    pub signature: String,
    pub session_id: Option<String>,
    pub payload: String,
}

/// A response as received.
#[derive(Debug, Clone, PartialEq, Eq)]
pub struct SignedResponse {
    pub status: bool,
    pub data: String,
    pub session_id: String,
    pub timestamp: u64,
    pub signature: String,
}

/// The JSON text of a boolean.
pub open spec fn bool_text(b: bool) -> Seq<char> {
    if b {
        "true"@
    } else {
        "false"@
    }
}

/// The JSON text of an optional string: `null` when absent.
pub open spec fn optional_text(s: Option<String>) -> Seq<char> {
    match s {
        Some(t) => json_quoted_of(t@),
        None => "null"@,
    }
}

/// The JSON object of a request, fields in their wire order.
pub open spec fn request_text(r: SignedRequest) -> Seq<char> {
    "{\"client_id\":"@ + json_quoted_of(r.client_id@) + ",\"timestamp\":"@ + decimal(
        r.timestamp as nat,
    ) + ",\"nonce\":"@ + json_quoted_of(r.nonce@) + ",\"signature\":"@ + json_quoted_of(
        r.signature@,
    ) + ",\"session_id\":"@ + optional_text(r.session_id) + ",\"wql_query\":"@ + json_quoted_of(
        r.payload@,
    ) + "}"@
}

/// The JSON object of a response whose signature field holds `signature`.
pub open spec fn response_text(r: SignedResponse, signature: Seq<char>) -> Seq<char> {
    "{\"status\":"@ + bool_text(r.status) + ",\"data\":"@ + json_quoted_of(r.data@)
        + ",\"session_id\":"@ + json_quoted_of(r.session_id@) + ",\"timestamp\":"@ + decimal(
        r.timestamp as nat,
    ) + ",\"signature\":"@ + json_quoted_of(signature) + "}"@
}

/// The text a response signature covers: the response with its signature
/// field emptied.
pub open spec fn canonical_text(r: SignedResponse) -> Seq<char> {
    response_text(r, Seq::empty())
}

fn push_quoted(out: &mut String, s: &str)
    ensures
        final(out)@ == old(out)@ + json_quoted_of(s@),
{
    let q = json_quote(s);
    out.append(q.as_str());
}

/// The JSON text of a request.
pub fn request_json(r: &SignedRequest) -> (out: String)
    ensures
        out@ == request_text(*r),
{
    let mut s = String::new();
    s.append("{\"client_id\":");
    push_quoted(&mut s, r.client_id.as_str());
    s.append(",\"timestamp\":");
    push_decimal(&mut s, r.timestamp);
    s.append(",\"nonce\":");
    push_quoted(&mut s, r.nonce.as_str());
    s.append(",\"signature\":");
    push_quoted(&mut s, r.signature.as_str());
    s.append(",\"session_id\":");
    match &r.session_id {
        Some(id) => {
            push_quoted(&mut s, id.as_str());
        },
        None => {
            s.append("null");
        },
    }
    s.append(",\"wql_query\":");
    push_quoted(&mut s, r.payload.as_str());
    s.append("}");
    assert(s@ =~= request_text(*r));
    s
}

/// The text a response signature covers: the response with its signature
/// field emptied.
pub fn canonical_response(r: &SignedResponse) -> (out: String)
    ensures
        out@ == canonical_text(*r),
{
    let mut s = String::new();
    s.append("{\"status\":");
    if r.status {
        s.append("true");
    } else {
        s.append("false");
    }
    s.append(",\"data\":");
    push_quoted(&mut s, r.data.as_str());
    s.append(",\"session_id\":");
    push_quoted(&mut s, r.session_id.as_str());
    s.append(",\"timestamp\":");
    push_decimal(&mut s, r.timestamp);
    s.append(",\"signature\":");
    proof {
        reveal_strlit("");
    }
    assert(""@ =~= Seq::<char>::empty());
    push_quoted(&mut s, "");
    s.append("}");
    assert(s@ =~= canonical_text(*r));
    s
}

} // verus!
