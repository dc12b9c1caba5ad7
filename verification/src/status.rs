use vstd::prelude::*;

use crate::text::{decimal, decimal_string};

verus! {

/// The canonical reason phrase that `http::StatusCode::canonical_reason`
/// gives a valid status code (one in 100..=999), such as "Not Found" for 404.
pub uninterp spec fn reason_phrase(code: u16) -> Option<Seq<char>>;

/// Whether a status code lies in the success class 200..=299
/// (`http::StatusCode::is_success`).
pub open spec fn is_success(code: u16) -> bool {
    200 <= code < 300
}

/// The reason phrase of a code: the canonical one for a valid code, none for
/// a number that `http` does not accept as a status code.
pub open spec fn reason_of(code: u16) -> Option<Seq<char>> {
    if 100 <= code <= 999 {
        reason_phrase(code)
    } else {
        None
    }
}

/// How a status is displayed: the number, a space and the reason phrase, or
/// `<unknown status code>` where there is none.
pub open spec fn status_text(code: u16) -> Seq<char> {
    decimal(code as nat) + " "@ + match reason_of(code) {
        Some(r) => r,
        None => "<unknown status code>"@,
    }
}

/// Calls `http::StatusCode::from_u16` and then `canonical_reason`. Trusted:
/// for a code in 100..=999 the result is the phrase named `reason_phrase`;
/// for any other number `from_u16` fails and the result is `None`.
#[verifier::external_body]
fn canonical_reason(code: u16) -> (r: Option<&'static str>)
    ensures
        100 <= code <= 999 ==> match r {
            Some(s) => reason_phrase(code) == Some(s@),
            None => reason_phrase(code) is None,
        },
        !(100 <= code <= 999) ==> r is None,
{
    match http::StatusCode::from_u16(code) {
        Ok(status) => status.canonical_reason(),
        Err(_) => None,
    }
}

/// Whether a response with this status code is a success.
pub fn status_is_success(code: u16) -> (r: bool)
    ensures
        r == is_success(code),
{
    200 <= code && code < 300
}

/// The display text of a status code, as it stands in error messages,
/// for instance "404 Not Found".
pub fn status_display(code: u16) -> (r: String)
    ensures
        r@ == status_text(code),
{
    let mut s = decimal_string(code as u64);
    s.append(" ");
    let reason = canonical_reason(code);
    match reason {
        Some(phrase) => s.append(phrase),
        None => s.append("<unknown status code>"),
    }
    s
}

} // verus!
