//! The line shown beside a labelled text input: a marker, and the field's
//! error if it has one.

use vstd::prelude::*;

verus! {

/// The marker beside a field's label: a dash before an error, a star on a
/// required field without one, and nothing otherwise. A field of which it is
/// not said whether it is required counts as optional.
pub open spec fn marker_of(has_error: bool, is_required: Option<bool>) -> Seq<char> {
    if has_error {
        "-"@
    } else if is_required == Some(true) {
        "*"@
    } else {
        ""@
    }
}

/// The status line of a field: its marker, one space, and the error's text
/// if there is one.
pub open spec fn status_of(error: Option<Seq<char>>, is_required: Option<bool>) -> Seq<char> {
    marker_of(error is Some, is_required) + " "@ + match error {
        Some(text) => text,
        None => ""@,
    }
}

/// The marker to show beside a field's label.
pub fn marker(has_error: bool, is_required: Option<bool>) -> (shown: &'static str)
    ensures
        shown@ == marker_of(has_error, is_required),
{
    let show_star = is_required.unwrap_or(false) && !has_error;
    let show_dash = has_error;
    if show_star {
        "*"
    } else if show_dash {
        "-"
    } else {
        ""
    }
}

/// The status line to show beside a field's label.
pub fn status_line(error: Option<&str>, is_required: Option<bool>) -> (line: String)
    ensures
        line@ == status_of(error.deep_view(), is_required),
{
    let text = match error {
        Some(text) => text,
        None => "",
    };
    String::from_str(marker(error.is_some(), is_required)).concat(" ").concat(text)
}

} // verus!
