//! What the client does with a response besides printing it.
use vstd::prelude::*;

verus! {

/// The line for standard error that a response's `suggested_followup`
/// asks for: `hint: <text>` when the field is a non-empty string, nothing
/// otherwise.
pub open spec fn followup_line(field: Option<Seq<char>>) -> Option<Seq<char>> {
    match field {
        Some(h) => if h.len() > 0 {
            Some("hint: "@ + h)
        } else {
            None
        },
        None => None,
    }
}

/// The hint line for a response whose `suggested_followup` string field is
/// `field` (`None` when the field is absent or not a string).
pub fn followup_hint(field: Option<&str>) -> (r: Option<String>)
    ensures
        match r {
            Some(s) => followup_line(crate::json::opt_chars(field)) == Some(s@),
            None => followup_line(crate::json::opt_chars(field)) is None,
        },
{
    match field {
        Some(h) => {
            if h.is_empty() {
                None
            } else {
                let mut line = String::from_str("hint: ");
                line.append(h);
                Some(line)
            }
        },
        None => None,
    }
}

} // verus!
