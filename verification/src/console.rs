//! The greeting of the console program: a line as it was typed becomes the
//! sentence that answers it.

use vstd::prelude::*;

verus! {

/// What `str::trim` leaves of a text: the text without the white space at
/// its two ends.
pub uninterp spec fn trimmed(line: Seq<char>) -> Seq<char>;

/// Calls `str::trim`.
///
/// Believed, not proved: what is left depends on the characters of the line
/// alone. Which characters count as white space is Unicode's business and
/// is not spelled out here.
#[verifier::external_body]
fn trim(line: &str) -> (rest: &str)
    ensures
        rest@ == trimmed(line@),
{
    line.trim()
}

/// The sentence for a name that is already trimmed: a greeting by name, or
/// the anonymous greeting where there is no name.
pub open spec fn console_greeting(name: Seq<char>) -> Seq<char> {
    if name.len() == 0 {
        "Hello, anonymous user! Welcome to the generated rust application! 🎉"@
    } else {
        "Hello, "@ + name + "! Welcome to the generated rust application! 🎉"@
    }
}

/// Greets a name that is already trimmed.
pub fn greet_name(name: &str) -> (sentence: String)
    ensures
        sentence@ == console_greeting(name@),
{
    if name.is_empty() {
        String::from_str("Hello, anonymous user! Welcome to the generated rust application! 🎉")
    } else {
        let mut sentence = String::from_str("Hello, ");
        sentence.append(name);
        sentence.append("! Welcome to the generated rust application! 🎉");
        sentence
    }
}

/// Greets whoever typed `line`: the line is trimmed, and what is left is the
/// name.
pub fn greet_line(line: &str) -> (sentence: String)
    ensures
        sentence@ == console_greeting(trimmed(line@)),
{
    greet_name(trim(line))
}

} // verus!
