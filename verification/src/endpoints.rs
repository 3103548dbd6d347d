//! The device's endpoints: the exact URLs and bodies each operation uses,
//! composed from the camera's network address and proved character by
//! character.

use crate::decimal::{dec_of, u64_to_dec};
use vstd::prelude::*;

verus! {

/// The base of every URL: the scheme and the device address.
pub open spec fn base_url(addr: Seq<char>) -> Seq<char> {
    "http://"@ + addr
}

/// The capture-status endpoint.
pub open spec fn info_url(addr: Seq<char>) -> Seq<char> {
    base_url(addr) + "/v1/photos/latest/info"@
}

/// The download endpoint for one stored capture.
pub open spec fn photo_url(addr: Seq<char>, dir: Seq<char>, file: Seq<char>) -> Seq<char> {
    base_url(addr) + "/v1/photos/"@ + dir + "/"@ + file
}

/// The exposure-parameter endpoint.
pub open spec fn params_url(addr: Seq<char>) -> Seq<char> {
    base_url(addr) + "/v1/params/camera"@
}

/// The shutter-press endpoint.
pub open spec fn shoot_start_url(addr: Seq<char>) -> Seq<char> {
    base_url(addr) + "/v1/camera/shoot/start"@
}

/// The shutter-release endpoint.
pub open spec fn shoot_finish_url(addr: Seq<char>) -> Seq<char> {
    base_url(addr) + "/v1/camera/shoot/finish"@
}

/// The body of a set-ISO request: `sv=` followed by the value in decimal.
pub open spec fn iso_body(iso: nat) -> Seq<char> {
    "sv="@ + dec_of(iso)
}

pub fn make_info_url(addr: &str) -> (u: String)
    ensures
        u@ == info_url(addr@),
{
    let mut s = "http://".to_owned();
    s.append(addr);
    s.append("/v1/photos/latest/info");
    s
}

pub fn make_photo_url(addr: &str, dir: &str, file: &str) -> (u: String)
    ensures
        u@ == photo_url(addr@, dir@, file@),
{
    let mut s = "http://".to_owned();
    s.append(addr);
    s.append("/v1/photos/");
    s.append(dir);
    s.append("/");
    s.append(file);
    s
}

pub fn make_params_url(addr: &str) -> (u: String)
    ensures
        u@ == params_url(addr@),
{
    let mut s = "http://".to_owned();
    s.append(addr);
    s.append("/v1/params/camera");
    s
}

pub fn make_shoot_start_url(addr: &str) -> (u: String)
    ensures
        u@ == shoot_start_url(addr@),
{
    let mut s = "http://".to_owned();
    s.append(addr);
    s.append("/v1/camera/shoot/start");
    s
}

pub fn make_shoot_finish_url(addr: &str) -> (u: String)
    ensures
        u@ == shoot_finish_url(addr@),
{
    let mut s = "http://".to_owned();
    s.append(addr);
    s.append("/v1/camera/shoot/finish");
    s
}

/// Builds the body of a set-ISO request.  The parameter is a `usize` as the
/// facade takes it; its value is preserved by the cast.
pub fn make_iso_body(iso: usize) -> (b: String)
    ensures
        b@ == iso_body(iso as nat),
{
    let mut s = "sv=".to_owned();
    let digits = u64_to_dec(iso as u64);
    s.append(digits.as_str());
    s
}

} // verus!
