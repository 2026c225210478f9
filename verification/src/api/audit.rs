//! The audit trail of the administrative routes: every mutation that
//! succeeded is recorded with who made it and what it sent.
use vstd::prelude::*;

use crate::text::starts_with;

verus! {

/// Whether `serde_json` reads the bytes as one JSON document.
pub uninterp spec fn json_accepts(bytes: Seq<u8>) -> bool;

/// The compact text `serde_json` writes for the JSON document the bytes hold.
pub uninterp spec fn compact_json(bytes: Seq<u8>) -> Seq<char>;

/// `serde_json::from_slice::<serde_json::Value>` followed by
/// `serde_json::to_string` on the document read: the document's compact
/// text. Claimed: there is a text exactly when `from_slice` reads the bytes
/// (writing a `Value` to a `String` does not fail: its map keys are strings
/// and the output is memory), and that text is `compact_json` of the bytes,
/// a function of the bytes alone. What the text looks like is not described.
#[verifier::external_body]
fn reencode_json(bytes: &[u8]) -> (r: Option<String>)
    ensures
        r is Some <==> json_accepts(bytes@),
        r matches Some(t) ==> t@ == compact_json(bytes@),
{
    match serde_json::from_slice::<serde_json::Value>(bytes) {
        Ok(value) => serde_json::to_string(&value).ok(),
        Err(_) => None,
    }
}

/// A mutation that succeeded, as the audit trail records it.
#[derive(Debug, Clone)]
pub struct AuditEntry {
    pub user_id: Option<String>,
    pub method: String,
    pub path: String,
    pub query_string: Option<String>,
    pub request_body: Option<String>,
    pub status_code: u16,
}

pub open spec fn mutation_method(method: Seq<char>) -> bool {
    method == "POST"@ || method == "PUT"@ || method == "PATCH"@ || method == "DELETE"@
}

/// Whether a request of this method changes something: only those are audited.
pub fn is_mutation_method(method: &str) -> (r: bool)
    ensures
        r == mutation_method(method@),
{
    crate::text::str_eq(method, "POST") || crate::text::str_eq(method, "PUT")
        || crate::text::str_eq(method, "PATCH") || crate::text::str_eq(method, "DELETE")
}

pub open spec fn json_content_type(content_type: Option<Seq<char>>) -> bool {
    match content_type {
        Some(v) => v.len() >= 16 && v.subrange(0, 16) == "application/json"@,
        None => false,
    }
}

/// Whether the body is JSON, by the `Content-Type` header (`None` where it
/// is missing or not text): only JSON bodies are kept.
pub fn is_json_content_type(content_type: Option<&str>) -> (r: bool)
    ensures
        r == json_content_type(
            match content_type {
                Some(v) => Some(v@),
                None => None,
            },
        ),
{
    proof {
        reveal_strlit("application/json");
    }
    match content_type {
        Some(v) => starts_with(v, "application/json"),
        None => false,
    }
}

/// The body as recorded: `None` where it is empty or not JSON, else its
/// compact JSON text.
pub fn sanitize_json_body(bytes: &[u8]) -> (r: Option<String>)
    ensures
        r is Some <==> (bytes@.len() > 0 && json_accepts(bytes@)),
        r matches Some(t) ==> t@ == compact_json(bytes@),
{
    if bytes.len() == 0 {
        return None;
    }
    reencode_json(bytes)
}

pub open spec fn success_status(status: u16) -> bool {
    200 <= status <= 299
}

/// The entry to record for a request to an administrative route, once its
/// answer is known: only a mutation answered with a 2xx status is recorded.
pub fn audit_entry(
    user_id: Option<String>,
    method: String,
    path: String,
    query_string: Option<String>,
    request_body: Option<String>,
    status_code: u16,
) -> (r: Option<AuditEntry>)
    ensures
        r is Some <==> (mutation_method(method@) && success_status(status_code)),
        r matches Some(e) ==> e.user_id == user_id && e.method == method && e.path == path
            && e.query_string == query_string && e.request_body == request_body && e.status_code
            == status_code,
{
    if is_mutation_method(method.as_str()) && 200 <= status_code && status_code <= 299 {
        Some(AuditEntry { user_id, method, path, query_string, request_body, status_code })
    } else {
        None
    }
}

} // verus!
