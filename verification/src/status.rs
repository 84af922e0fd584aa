//! The text of an HTTP status, as `reqwest` shows it.

use crate::text::{decimal, decimal_text};
use vstd::prelude::*;

verus! {

/// What `reqwest` shows for the status code `status`: the number and the
/// canonical reason phrase of the code, as in `404 Not Found`. It is
/// spoken of for the codes that a response can carry, from 100 to 999.
pub uninterp spec fn status_text(status: u16) -> Seq<char>;

/// Whether a response can carry the code.
pub open spec fn is_status_code(status: u16) -> bool {
    100 <= status <= 999
}

/// The text that stands for a status in a message: what `reqwest` shows
/// for a code that a response can carry, the bare number for any other.
pub open spec fn status_line(status: u16) -> Seq<char> {
    if is_status_code(status) {
        status_text(status)
    } else {
        decimal(status as nat)
    }
}

/// `Display` of `reqwest::StatusCode`, for the code that
/// `StatusCode::from_u16` makes of `status`: the number, a space, and the
/// canonical reason phrase or a fixed text where the code has none. The
/// contract claims only that the text depends on the code alone. Codes
/// that `from_u16` refuses are left out by `requires`.
#[verifier::external_body]
fn show_status(status: u16) -> (text: String)
    requires
        is_status_code(status),
    ensures
        text@ == status_text(status),
{
    match reqwest::StatusCode::from_u16(status) {
        Ok(code) => code.to_string(),
        Err(e) => e.to_string(),
    }
}

/// Writes the text that stands for a status in a message.
pub fn status_line_text(status: u16) -> (text: String)
    ensures
        text@ == status_line(status),
{
    if 100 <= status && status <= 999 {
        show_status(status)
    } else {
        decimal_text(status as u64)
    }
}

} // verus!
