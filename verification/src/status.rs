//! HTTP status codes, as far as the health probe reads them.

use vstd::prelude::*;

verus! {

/// Whether `code` is a success status: one of 200 to 299.
pub open spec fn is_success_code(code: u16) -> bool {
    200 <= code && code < 300
}

/// Whether `code` is a status that an HTTP response can carry: three digits.
pub open spec fn is_status_code(code: u16) -> bool {
    100 <= code && code < 1000
}

/// Trusted: `reqwest::StatusCode::from_u16` followed by
/// `reqwest::StatusCode::is_success`.
///
/// `from_u16` accepts exactly the codes from 100 to 999 and refuses every
/// other number; on an accepted code `is_success` answers whether it lies
/// between 200 and 299. The result is `None` where the code was refused.
#[verifier::external_body]
fn success_class(code: u16) -> (class: Option<bool>)
    ensures
        is_status_code(code) ==> class == Some(is_success_code(code)),
        !is_status_code(code) ==> class.is_none(),
{
    match reqwest::StatusCode::from_u16(code) {
        Ok(status) => Some(status.is_success()),
        Err(_) => None,
    }
}

/// Decides whether a response with status `code` counts as a success.
///
/// A number that is no status code at all is not a success.
pub fn is_success_status(code: u16) -> (success: bool)
    ensures
        success == is_success_code(code),
{
    match success_class(code) {
        Some(success) => success,
        None => false,
    }
}

} // verus!
