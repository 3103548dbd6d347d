//! The JSON side of the response validator.  Every JSON-bearing endpoint of
//! the device returns an envelope `{"errCode": <int>, "errMsg": <string,
//! optional>, ...}`; an HTTP 200 can still carry a logical failure, so the
//! envelope gate runs independently of the status gate.  The capture-status
//! endpoint adds `captured`, `dir` and `file` fields, read by the poller.

use crate::error::{Error, ErrorV};
use crate::response::{status_is_success, status_success, HttpResp, RespV};
use serde_json::Error as SerdeJsonFailure;
use serde_json::Value;
use std::string::FromUtf8Error;
use vstd::prelude::*;
use vstd::utf8::{decode_utf8, valid_utf8};

verus! {

/// What the protocol reads from a decoded JSON body: whether the top-level
/// value is an object, and the shape of the five fields the device uses.
/// `err_code` is `Some(v)` exactly when `errCode` is present as a JSON
/// number, with `v` its value when that number fits an `i64`; the string and
/// boolean fields are `Some` exactly when present with that JSON type.
pub struct BodyFields {
    pub object: bool,
    pub err_code: Option<Option<i64>>,
    pub err_msg: Option<String>,
    pub captured: Option<bool>,
    pub dir: Option<String>,
    pub file: Option<String>,
}

/// The mathematical shape of `BodyFields`.
pub ghost struct BodyFieldsV {
    pub object: bool,
    pub err_code: Option<Option<i64>>,
    pub err_msg: Option<Seq<char>>,
    pub captured: Option<bool>,
    pub dir: Option<Seq<char>>,
    pub file: Option<Seq<char>>,
}

impl View for BodyFields {
    type V = BodyFieldsV;

    open spec fn view(&self) -> BodyFieldsV {
        BodyFieldsV {
            object: self.object,
            err_code: self.err_code,
            err_msg: match self.err_msg {
                Some(m) => Some(m@),
                None => None,
            },
            captured: self.captured,
            dir: match self.dir {
                Some(d) => Some(d@),
                None => None,
            },
            file: match self.file {
                Some(f) => Some(f@),
                None => None,
            },
        }
    }
}

/// What decoding a text as JSON yields for the fields the protocol reads:
/// `None` when the text is not valid JSON, else the shape of the top-level
/// fields.  Left unstated: it stands for `serde_json`'s parse, a function of
/// the characters alone.
pub uninterp spec fn json_fields(text: Seq<char>) -> Option<BodyFieldsV>;

/// Relies on `serde_json::from_str::<serde_json::Value>`: whether a string
/// parses as JSON, and the top-level fields of the parsed value, depend on
/// the string's characters alone, named here by `json_fields`.  The match
/// arms only tell the variants of `serde_json::Value` apart and move the
/// fields the protocol reads.
#[verifier::external_body]
pub(crate) fn parse_body_fields(text: &str) -> (r: Result<BodyFields, SerdeJsonFailure>)
    ensures
        r is Ok <==> json_fields(text@) is Some,
        r matches Ok(f) ==> json_fields(text@) == Some(f@),
{
    let o = match serde_json::from_str::<Value>(text)? {
        Value::Object(m) => m,
        _ => return Ok(BodyFields::default()),
    };
    let s = |k: &str| match o.get(k) { Some(Value::String(v)) => Some(v.clone()), _ => None };
    let err_code = match o.get("errCode") { Some(Value::Number(n)) => Some(n.as_i64()), _ => None };
    let captured = match o.get("captured") { Some(Value::Bool(b)) => Some(*b), _ => None };
    Ok(BodyFields { object: true, err_code, err_msg: s("errMsg"), captured, dir: s("dir"), file: s("file") })
}

impl Default for BodyFields {
    /// The shape recorded for a body whose top-level value is not an object:
    /// no field of the protocol is present.
    fn default() -> (f: BodyFields)
        ensures
            f@ == (BodyFieldsV {
                object: false,
                err_code: None,
                err_msg: None,
                captured: None,
                dir: None,
                file: None,
            }),
    {
        BodyFields {
            object: false,
            err_code: None,
            err_msg: None,
            captured: None,
            dir: None,
            file: None,
        }
    }
}

/// Relies on `String::from_utf8`: it returns the decoded string exactly when
/// the bytes are valid UTF-8, stated over `vstd`'s model of UTF-8.
#[verifier::external_body]
pub(crate) fn bytes_to_string(bytes: &Vec<u8>) -> (r: Result<String, FromUtf8Error>)
    ensures
        r is Ok <==> valid_utf8(bytes@),
        r matches Ok(s) ==> s@ == decode_utf8(bytes@),
{
    String::from_utf8(bytes.clone())
}

/// The envelope gate's three possible outcomes.
pub ghost enum EnvelopeVerdict {
    /// `errCode == 200`: the envelope reports success.
    Accept,
    /// `errCode` present as a number but not 200: rejected with the message
    /// to report.
    Reject(Seq<char>),
    /// Not an object, or `errCode` missing or not a number.
    Malformed,
}

/// The message a device-reported failure carries: the envelope's `errMsg`
/// when present as a string, else a generic message.
pub open spec fn envelope_message(f: BodyFieldsV) -> Seq<char> {
    match f.err_msg {
        Some(m) => m,
        None => "bad errCode"@,
    }
}

/// The envelope gate: an envelope is accepted exactly when it is an object
/// whose `errCode` is a number equal to 200.
pub open spec fn envelope_verdict_spec(f: BodyFieldsV) -> EnvelopeVerdict {
    if !f.object {
        EnvelopeVerdict::Malformed
    } else {
        match f.err_code {
            None => EnvelopeVerdict::Malformed,
            Some(code) => if code == Some(200i64) {
                EnvelopeVerdict::Accept
            } else {
                EnvelopeVerdict::Reject(envelope_message(f))
            },
        }
    }
}

/// How an executable validator result realises a spec-level verdict.
pub open spec fn realises_verdict(r: Result<(), Error>, v: EnvelopeVerdict) -> bool {
    match v {
        EnvelopeVerdict::Accept => r is Ok,
        EnvelopeVerdict::Reject(m) => r matches Err(e) && e@ == ErrorV::Status(m),
        EnvelopeVerdict::Malformed => r matches Err(e) && e@ == ErrorV::Message,
    }
}

/// The envelope gate on already-extracted fields.  Every check on concrete
/// field values reaches the verified logic here, independent of the JSON
/// decoder that produced them.
pub fn envelope_verdict(f: &BodyFields) -> (r: Result<(), Error>)
    ensures
        realises_verdict(r, envelope_verdict_spec(f@)),
        r is Ok <==> envelope_verdict_spec(f@) is Accept,
{
    if !f.object {
        return Err(Error::MessageError);
    }
    match f.err_code {
        None => Err(Error::MessageError),
        Some(code) => {
            let accept: bool = match code {
                Some(c) => c == 200,
                None => false,
            };
            if accept {
                Ok(())
            } else {
                match &f.err_msg {
                    Some(m) => Err(Error::StatusCode(m.clone())),
                    None => Err(Error::StatusCode("bad errCode".to_owned())),
                }
            }
        },
    }
}

/// The whole validation pipeline for a JSON-bearing endpoint, at the spec
/// level: status gate, text decoding, JSON decoding, envelope gate, in that
/// order.  On acceptance it yields the decoded fields.
pub open spec fn json_gate(resp: RespV) -> Result<BodyFieldsV, ErrorV> {
    if !status_success(resp.status) {
        Err(ErrorV::Status(resp.status_text))
    } else if !valid_utf8(resp.body) {
        Err(ErrorV::Utf8)
    } else {
        match json_fields(decode_utf8(resp.body)) {
            None => Err(ErrorV::Json),
            Some(f) => match envelope_verdict_spec(f) {
                EnvelopeVerdict::Accept => Ok(f),
                EnvelopeVerdict::Reject(m) => Err(ErrorV::Status(m)),
                EnvelopeVerdict::Malformed => Err(ErrorV::Message),
            },
        }
    }
}

/// Runs both validator gates on a response and hands back the decoded
/// capture-status fields; the poller reads `captured`, `dir` and `file` from
/// them.
pub fn check_envelope(resp: &HttpResp) -> (r: Result<BodyFields, Error>)
    ensures
        r is Ok <==> json_gate(resp@) is Ok,
        r matches Ok(f) ==> json_gate(resp@) == Ok::<BodyFieldsV, ErrorV>(f@),
        r matches Err(e) ==> json_gate(resp@) == Err::<BodyFieldsV, ErrorV>(e@),
{
    if !status_is_success(resp.status) {
        return Err(Error::StatusCode(resp.status_text.clone()));
    }
    let text = match bytes_to_string(&resp.body) {
        Ok(t) => t,
        Err(e) => {
            return Err(Error::Utf8(e));
        },
    };
    let fields = match parse_body_fields(text.as_str()) {
        Ok(f) => f,
        Err(e) => {
            return Err(Error::JSON(e));
        },
    };
    match envelope_verdict(&fields) {
        Ok(()) => Ok(fields),
        Err(e) => Err(e),
    }
}

/// The validator as the synchronous commands use it: success is owed exactly
/// when every gate passes with `errCode == 200`; any failure carries the
/// gate that rejected it.
pub fn validate_json_response(resp: &HttpResp) -> (r: Result<(), Error>)
    ensures
        r is Ok <==> json_gate(resp@) is Ok,
        r matches Err(e) ==> (json_gate(resp@) matches Err(ev) && e@ == ev),
{
    match check_envelope(resp) {
        Ok(_) => Ok(()),
        Err(e) => Err(e),
    }
}

/// A response outside the HTTP success class is rejected by the status gate
/// alone: the verdict is `StatusCode` with the status text, whatever bytes
/// the body holds, and no body decoding enters into it.
pub proof fn lemma_status_gate_runs_first(resp: RespV)
    requires
        !status_success(resp.status),
    ensures
        json_gate(resp) == Err::<BodyFieldsV, ErrorV>(ErrorV::Status(resp.status_text)),
{
}

/// A well-shaped envelope whose `errCode` is a number other than 200 is
/// rejected with `StatusCode` carrying the device's `errMsg` when present,
/// else the generic message.
pub proof fn lemma_envelope_bad_code(f: BodyFieldsV)
    requires
        f.object,
        f.err_code is Some,
        f.err_code != Some(Some(200i64)),
    ensures
        envelope_verdict_spec(f) == EnvelopeVerdict::Reject(envelope_message(f)),
        f.err_msg matches Some(m) ==> envelope_verdict_spec(f) == EnvelopeVerdict::Reject(m),
{
}

/// A body that is not an object, or an object whose `errCode` is missing or
/// not a number, is rejected as malformed.
pub proof fn lemma_envelope_malformed(f: BodyFieldsV)
    requires
        !f.object || f.err_code is None,
    ensures
        envelope_verdict_spec(f) == EnvelopeVerdict::Malformed,
{
}

} // verus!
