//! The health endpoint: static service metadata, always successful.
use crate::reply::{json_quote, json_quoted, HttpReply};
use vstd::prelude::*;

verus! {

/// The body of the health reply for a given version string.
pub open spec fn health_body(version: Seq<char>) -> Seq<char> {
    "{\"ok\":true,\"service\":\"lytt-bridge\",\"version\":"@ + json_quoted(version) + "}"@
}

/// Answers `GET /health`: 200 with `{"ok":true,"service":...,"version":...}`,
/// whatever the state of the upstream service or the configuration.
pub fn handler(version: &str) -> (r: HttpReply)
    ensures
        r.status == 200,
        r.body@ == health_body(version@),
{
    let mut body = String::from_str("{\"ok\":true,\"service\":\"lytt-bridge\",\"version\":");
    let v = json_quote(version);
    body.append(v.as_str());
    body.append("}");
    HttpReply { status: 200, body }
}

} // verus!
