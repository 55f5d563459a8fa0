//! The words for a fault that nothing caught while a request was handled.

use crate::text::optional_text;
use vstd::prelude::*;
use vstd::string::*;

verus! {

/// The text `value`, or the word `unknown` where there is none.
pub open spec fn or_unknown(value: Option<Seq<char>>) -> Seq<char> {
    match value {
        Some(text) => text,
        None => "unknown"@,
    }
}

/// The notice of a fault in the thread `thread` at the place `location`.
pub open spec fn fault_notice(thread: Option<Seq<char>>, location: Option<Seq<char>>) -> Seq<
    char,
> {
    "An unexpected error occurred.\nAt: thread: `"@ + or_unknown(thread) + "`, location: `"@
        + or_unknown(location) + "`"@
}

/// Writes the notice of a fault, with the name of the thread and the place
/// in the source as far as they are known.
pub fn write_fault_notice(thread: Option<&str>, location: Option<&str>) -> (text: String)
    ensures
        text@ == fault_notice(optional_text(thread), optional_text(location)),
{
    let mut text = String::from_str("An unexpected error occurred.\nAt: thread: `");
    match thread {
        Some(name) => text.append(name),
        None => text.append("unknown"),
    }
    text.append("`, location: `");
    match location {
        Some(place) => text.append(place),
        None => text.append("unknown"),
    }
    text.append("`");
    text
}

} // verus!
