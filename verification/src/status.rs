//! HTTP status codes as the harness reads them.

use vstd::prelude::*;

verus! {

/// The status with which the service reports that a session does not exist.
pub const NOT_FOUND: u16 = 404;

/// The status with which the service confirms a deletion.
pub const NO_CONTENT: u16 = 204;

/// Whether a status code lies in the success class.
pub open spec fn success_class(code: u16) -> bool {
    200 <= code < 300
}

/// Tells whether `code` is a success status, that is one of 200 to 299.
pub fn is_success(code: u16) -> (r: bool)
    ensures
        r == success_class(code),
{
    200 <= code && code < 300
}

/// Tells whether `code` is the "no such session" status.
pub fn is_not_found(code: u16) -> (r: bool)
    ensures
        r == (code == NOT_FOUND),
{
    code == NOT_FOUND
}

/// Tells whether `code` is the status expected of a deletion.
pub fn is_no_content(code: u16) -> (r: bool)
    ensures
        r == (code == NO_CONTENT),
{
    code == NO_CONTENT
}

} // verus!
