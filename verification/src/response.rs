//! A delivered HTTP response as plain values, and the status gate: the first
//! of the two validator gates, run before any body decoding.

use crate::error::{Error, ErrorV};
use vstd::prelude::*;

verus! {

/// One HTTP response, as handed back by whatever performed the round trip:
/// the numeric status, the status line's text (for error reporting), and the
/// raw body bytes.
pub struct HttpResp {
    pub status: u16,
    pub status_text: String,
    pub body: Vec<u8>,
}

/// The mathematical shape of an `HttpResp`.
pub ghost struct RespV {
    pub status: u16,
    pub status_text: Seq<char>,
    pub body: Seq<u8>,
}

impl View for HttpResp {
    type V = RespV;

    open spec fn view(&self) -> RespV {
        RespV { status: self.status, status_text: self.status_text@, body: self.body@ }
    }
}

/// The HTTP success class: exactly the statuses 200 through 299.
pub open spec fn status_success(status: u16) -> bool {
    200 <= status <= 299
}

/// The status gate as executable code.
pub fn status_is_success(status: u16) -> (b: bool)
    ensures
        b == status_success(status),
{
    200 <= status && status <= 299
}

/// The status gate over a whole response: a non-success status is rejected
/// with `StatusCode` carrying the status text, and the body is handed back
/// untouched otherwise.  Raw-binary endpoints (the photo download) run this
/// gate alone.
pub fn validate_response(resp: HttpResp) -> (r: Result<Vec<u8>, Error>)
    ensures
        status_success(resp@.status) ==> (r matches Ok(b) && b@ == resp@.body),
        !status_success(resp@.status) ==> (r matches Err(e) && e@ == ErrorV::Status(
            resp@.status_text,
        )),
{
    if !status_is_success(resp.status) {
        Err(Error::StatusCode(resp.status_text))
    } else {
        Ok(resp.body)
    }
}

} // verus!
