//! The response to a request for the dashboard page.
use vstd::prelude::*;

verus! {

/// The HTTP status of a served page.
pub const STATUS_OK: u16 = 200;

/// The HTTP status when the page cannot be read.
pub const STATUS_INTERNAL_ERROR: u16 = 500;

/// A status code and a body.
pub struct PageResponse {
    pub status: u16,
    pub body: String,
}

/// The response for the page's content as read, or for a failed read: the
/// content with status 200, or status 500 with an empty body.
pub fn root_response(page: Option<String>) -> (r: PageResponse)
    ensures
        page matches Some(c) ==> r.status == STATUS_OK && r.body@ == c@,
        page is None ==> r.status == STATUS_INTERNAL_ERROR && r.body@.len() == 0,
{
    match page {
        Some(c) => PageResponse { status: STATUS_OK, body: c },
        None => PageResponse { status: STATUS_INTERNAL_ERROR, body: String::new() },
    }
}

} // verus!
