//! The JSON text of the payloads. The object around the members is written
//! here; the string literals inside it are `serde_json`'s.

use vstd::prelude::*;
use crate::payload::{
    greeting, health_report, welcome, HealthCheck, HealthCheckView, HelloResponse,
    HelloResponseView,
};

verus! {

/// `serde_json::Error`, which is only ever passed along.
#[verifier::external_type_specification]
#[verifier::external_body]
pub struct ExJsonError(serde_json::Error);

/// A character that stands for itself inside a JSON string literal: any but
/// the double quote, the backslash and the control characters below U+0020.
pub open spec fn is_plain_char(c: char) -> bool {
    c != '"' && c != '\\' && c as u32 >= 0x20
}

/// A text of plain characters only.
pub open spec fn is_plain(text: Seq<char>) -> bool {
    forall|i: int| 0 <= i < text.len() ==> is_plain_char(#[trigger] text[i])
}

/// A text between two double quotes.
pub open spec fn quoted(text: Seq<char>) -> Seq<char> {
    seq!['"'] + text + seq!['"']
}

/// The JSON string literal that `serde_json::to_string` writes for a text
/// that holds a character it has to escape.
pub uninterp spec fn escaped(text: Seq<char>) -> Seq<char>;

/// The JSON string literal for a text: a plain text goes between quotes as
/// it is, any other text is escaped as `serde_json` does it.
pub open spec fn json_string(text: Seq<char>) -> Seq<char> {
    if is_plain(text) {
        quoted(text)
    } else {
        escaped(text)
    }
}

/// Calls `serde_json::to_string` on a string slice.
///
/// Believed, not proved:
/// - The call succeeds for every text. A string slice is serialised by
///   `Serializer::serialize_str`, which writes into a `Vec<u8>`; the only
///   errors on that path are those of the writer, and a `Vec<u8>` has none.
/// - A plain text comes back between two double quotes, unchanged: the
///   serialiser copies every byte but `"`, `\` and those below 0x20.
/// - The output for any other text depends on its characters alone.
#[verifier::external_body]
fn to_json_string(text: &str) -> (out: Result<String, serde_json::Error>)
    ensures
        out is Ok,
        is_plain(text@) ==> out->Ok_0@ == quoted(text@),
        !is_plain(text@) ==> out->Ok_0@ == escaped(text@),
{
    serde_json::to_string(text)
}

/// The JSON string literal for `text`.
pub fn encode_string(text: &str) -> (literal: String)
    ensures
        literal@ == json_string(text@),
{
    match to_json_string(text) {
        Ok(literal) => literal,
        Err(_) => vstd::pervasive::unreached(),
    }
}

/// A greeting object around two members that are already JSON values.
pub open spec fn greeting_object(message: Seq<char>, generated_by: Seq<char>) -> Seq<char> {
    "{\"message\":"@ + message + ",\"generated_by\":"@ + generated_by + "}"@
}

/// A health object around two members that are already JSON values.
pub open spec fn health_object(status: Seq<char>, message: Seq<char>) -> Seq<char> {
    "{\"status\":"@ + status + ",\"message\":"@ + message + "}"@
}

/// The JSON text of a greeting: its members in the order of declaration,
/// with nothing between the tokens.
pub open spec fn hello_json(reply: HelloResponseView) -> Seq<char> {
    greeting_object(json_string(reply.message), json_string(reply.generated_by))
}

/// The JSON text of a health report.
pub open spec fn health_json(report: HealthCheckView) -> Seq<char> {
    health_object(json_string(report.status), json_string(report.message))
}

/// Writes the greeting object around two JSON values.
pub fn frame_greeting(message: &str, generated_by: &str) -> (text: String)
    ensures
        text@ == greeting_object(message@, generated_by@),
{
    let mut text = String::from_str("{\"message\":");
    text.append(message);
    text.append(",\"generated_by\":");
    text.append(generated_by);
    text.append("}");
    text
}

/// Writes the health object around two JSON values.
pub fn frame_health(status: &str, message: &str) -> (text: String)
    ensures
        text@ == health_object(status@, message@),
{
    let mut text = String::from_str("{\"status\":");
    text.append(status);
    text.append(",\"message\":");
    text.append(message);
    text.append("}");
    text
}

impl HelloResponse {
    /// The greeting as JSON text.
    pub fn to_json(&self) -> (text: String)
        ensures
            text@ == hello_json(self@),
    {
        let message = encode_string(self.message.as_str());
        let generated_by = encode_string(self.generated_by.as_str());
        frame_greeting(message.as_str(), generated_by.as_str())
    }
}

impl HealthCheck {
    /// The report as JSON text.
    pub fn to_json(&self) -> (text: String)
        ensures
            text@ == health_json(self@),
    {
        let status = encode_string(self.status.as_str());
        let message = encode_string(self.message.as_str());
        frame_health(status.as_str(), message.as_str())
    }
}

/// The health report on the wire, character for character.
pub proof fn health_report_on_the_wire()
    ensures
        health_json(health_report())
            == "{\"status\":\"healthy\",\"message\":\"Generated Rust Web API is running\"}"@,
{
    reveal_strlit("healthy");
    reveal_strlit("Generated Rust Web API is running");
    reveal_strlit("{\"status\":");
    reveal_strlit(",\"message\":");
    reveal_strlit("}");
    reveal_strlit("{\"status\":\"healthy\",\"message\":\"Generated Rust Web API is running\"}");
    assert(is_plain("healthy"@));
    assert(is_plain("Generated Rust Web API is running"@));
    assert(health_json(health_report())
        =~= "{\"status\":\"healthy\",\"message\":\"Generated Rust Web API is running\"}"@);
}

/// The welcome on the wire, character for character.
pub proof fn welcome_on_the_wire()
    ensures
        hello_json(welcome())
            == "{\"message\":\"Welcome to the generated Rust Web API!\",\"generated_by\":\"Universal Project Generator with CppProlog\"}"@,
{
    reveal_strlit("Welcome to the generated Rust Web API!");
    reveal_strlit("Universal Project Generator with CppProlog");
    reveal_strlit("{\"message\":");
    reveal_strlit(",\"generated_by\":");
    reveal_strlit("}");
    reveal_strlit("{\"message\":\"Welcome to the generated Rust Web API!\",\"generated_by\":\"Universal Project Generator with CppProlog\"}");
    assert(is_plain("Welcome to the generated Rust Web API!"@));
    assert(is_plain("Universal Project Generator with CppProlog"@));
    assert(hello_json(welcome())
        =~= "{\"message\":\"Welcome to the generated Rust Web API!\",\"generated_by\":\"Universal Project Generator with CppProlog\"}"@);
}

/// The greeting for a plain name on the wire: the name stands in the body
/// exactly as it was given.
pub proof fn greeting_on_the_wire(name: Seq<char>)
    requires
        is_plain(name),
    ensures
        hello_json(greeting(name)) == "{\"message\":\"Hello, "@ + name
            + "! Welcome to the generated Rust Web API! 🎉\",\"generated_by\":\"Universal Project Generator\"}"@,
{
    reveal_strlit("Hello, ");
    reveal_strlit("! Welcome to the generated Rust Web API! 🎉");
    reveal_strlit("Universal Project Generator");
    reveal_strlit("{\"message\":");
    reveal_strlit(",\"generated_by\":");
    reveal_strlit("}");
    reveal_strlit("{\"message\":\"Hello, ");
    reveal_strlit("! Welcome to the generated Rust Web API! 🎉\",\"generated_by\":\"Universal Project Generator\"}");
    assert(is_plain(greeting(name).message));
    assert(is_plain("Universal Project Generator"@));
    assert(hello_json(greeting(name)) =~= "{\"message\":\"Hello, "@ + name
        + "! Welcome to the generated Rust Web API! 🎉\",\"generated_by\":\"Universal Project Generator\"}"@);
}

} // verus!
