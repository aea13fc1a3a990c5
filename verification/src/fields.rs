use vstd::prelude::*;

verus! {

/// The text of a stored column, or `default` where the column could not be read.
pub open spec fn text_or_default(column: Option<String>, default: Seq<char>) -> Seq<char> {
    match column {
        Some(s) => s@,
        None => default,
    }
}

/// Returns the text of a stored column, or `default` where it could not be read.
pub fn text_or(column: Option<String>, default: &str) -> (text: String)
    ensures
        text@ == text_or_default(column, default@),
{
    match column {
        Some(s) => s,
        None => String::from_str(default),
    }
}

/// Returns the text of a stored column, or empty text where it could not be read.
pub fn text_or_empty(column: Option<String>) -> (text: String)
    ensures
        text@ == text_or_default(column, Seq::empty()),
{
    match column {
        Some(s) => s,
        None => String::new(),
    }
}

} // verus!
