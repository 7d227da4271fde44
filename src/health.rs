//! The health report: its two fields and its JSON body.

use vstd::prelude::*;
use vstd::string::*;

use crate::json::{is_plain, json_string, lemma_escaped_plain, quote};

verus! {

/// What the health route reports: a status word and a line of text.
#[derive(Debug)]
pub struct HealthResponse {
    pub status: String,
    pub message: String,
}

/// The status that a running service reports.
pub open spec fn health_status() -> Seq<char> {
    "ok"@
}

/// The text that a running service reports.
pub open spec fn health_message() -> Seq<char> {
    "Rust backend is running"@
}

/// The JSON object with members `status` and `message`, in that order,
/// written compactly.
pub open spec fn json_object(status: Seq<char>, message: Seq<char>) -> Seq<char> {
    seq!['{'] + json_string("status"@) + seq![':'] + json_string(status) + seq![',']
        + json_string("message"@) + seq![':'] + json_string(message) + seq!['}']
}

/// The body of every successful health response.
pub open spec fn health_body() -> Seq<char> {
    json_object(health_status(), health_message())
}

/// The report of a running service.
pub fn health() -> (r: HealthResponse)
    ensures
        r.status@ == health_status(),
        r.message@ == health_message(),
{
    HealthResponse { status: String::from_str("ok"), message: String::from_str("Rust backend is running") }
}

impl HealthResponse {
    /// The report as a JSON object.
    pub fn to_json(&self) -> (r: String)
        ensures
            r@ == json_object(self.status@, self.message@),
    {
        let mut out = String::from_str("{");
        out.append(quote("status").as_str());
        out.append(":");
        out.append(quote(self.status.as_str()).as_str());
        out.append(",");
        out.append(quote("message").as_str());
        out.append(":");
        out.append(quote(self.message.as_str()).as_str());
        out.append("}");
        proof {
            reveal_strlit("{");
            reveal_strlit(":");
            reveal_strlit(",");
            reveal_strlit("}");
        }
        assert(out@ =~= json_object(self.status@, self.message@));
        out
    }
}

proof fn lemma_json_string_plain(s: Seq<char>)
    requires
        forall|i: int| 0 <= i < s.len() ==> is_plain(#[trigger] s[i]),
    ensures
        json_string(s) == seq!['"'] + s + seq!['"'],
{
    lemma_escaped_plain(s);
}

/// The health body is the text
/// `{"status":"ok","message":"Rust backend is running"}`.
pub proof fn lemma_health_body_text()
    ensures
        health_body() == "{\"status\":\"ok\",\"message\":\"Rust backend is running\"}"@,
{
    reveal_strlit("status");
    reveal_strlit("ok");
    reveal_strlit("message");
    reveal_strlit("Rust backend is running");
    reveal_strlit("{\"status\":\"ok\",\"message\":\"Rust backend is running\"}");
    lemma_json_string_plain("status"@);
    lemma_json_string_plain("ok"@);
    lemma_json_string_plain("message"@);
    lemma_json_string_plain("Rust backend is running"@);
    assert(health_body() =~= "{\"status\":\"ok\",\"message\":\"Rust backend is running\"}"@);
}

} // verus!
