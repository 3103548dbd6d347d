//! The capture poller.  After a capture is triggered the device needs time
//! before the image can be fetched, so the client polls the capture-status
//! endpoint with bounded retries and a fixed interval, then resolves the
//! capture's storage location and downloads it.
//!
//! The machine is a step function from the current phase and the response to
//! the pending request, to either the next request (URL plus the delay to
//! wait first) or the final outcome.  The driver around the library performs
//! each round trip and feeds the response back in; every decision is made
//! here.  Two deliberate choices: the retry ceiling is checked before the
//! interval wait, so no wait precedes giving up, and the locate phase
//! re-queries the status endpoint rather than reusing the answer that first
//! reported the capture, in case the device populates `dir` and `file`
//! later than `captured` itself.

use crate::envelope::{check_envelope, json_gate};
use crate::error::{Error, ErrorV};
use crate::response::{status_is_success, status_success, HttpResp, RespV};
use crate::endpoints::{info_url, make_info_url, make_photo_url, photo_url};
use vstd::prelude::*;

verus! {

/// The poll policy: how many retries may follow the first status query, and
/// the interval between successive queries, in milliseconds.
#[derive(Clone, Copy, Debug)]
pub struct PollConfig {
    pub retries: u32,
    pub interval_ms: u64,
}

impl Default for PollConfig {
    /// The policy the device's timing expects: up to 3 retries past the
    /// first query (4 queries in all), spaced 1000 ms apart.
    fn default() -> (c: PollConfig)
        ensures
            c.retries == 3,
            c.interval_ms == 1000,
    {
        PollConfig { retries: 3, interval_ms: 1000 }
    }
}

/// The poller's phase.  `Awaiting` counts the status queries already
/// answered with `captured` not yet true.
#[derive(Clone, Copy, Debug, PartialEq, Eq, Structural)]
pub enum PollState {
    Awaiting { tries: u32 },
    Locating,
    Fetching,
}

/// What one step decides: issue the next request (after a delay), or finish.
pub enum PollOutcome {
    /// Wait `delay_ms`, then GET `url` and feed the response to the next step.
    Continue { state: PollState, url: String, delay_ms: u64 },
    /// The downloaded capture, byte for byte as the device sent it.
    Success { bytes: Vec<u8> },
    /// The poll is aborted with this failure; nothing partial is returned.
    Failure { error: Error },
}

/// The mathematical shape of a `PollOutcome`.
pub ghost enum OutcomeV {
    Continue { state: PollState, url: Seq<char>, delay_ms: u64 },
    Success { bytes: Seq<u8> },
    Failure { error: ErrorV },
}

impl View for PollOutcome {
    type V = OutcomeV;

    open spec fn view(&self) -> OutcomeV {
        match self {
            PollOutcome::Continue { state, url, delay_ms } => OutcomeV::Continue {
                state: *state,
                url: url@,
                delay_ms: *delay_ms,
            },
            PollOutcome::Success { bytes } => OutcomeV::Success { bytes: bytes@ },
            PollOutcome::Failure { error } => OutcomeV::Failure { error: error@ },
        }
    }
}

/// A status answer whose envelope passed both gates but does not report
/// `captured: true`: the poller must keep waiting.
pub open spec fn not_captured_ok(resp: RespV) -> bool {
    json_gate(resp) matches Ok(f) && f.captured != Some(true)
}

/// A status answer whose envelope passed both gates and reports
/// `captured: true`.
pub open spec fn captured_ok(resp: RespV) -> bool {
    json_gate(resp) matches Ok(f) && f.captured == Some(true)
}

/// One poller step.  In `Awaiting`, a validated answer with `captured: true`
/// moves to the locate phase at once; any other validated answer consumes
/// one retry, waiting the configured interval, until the budget is spent and
/// the poll fails with `NotCaptured`.  In `Locating`, `dir` and `file` must
/// both be present as strings, and determine the download URL.  In
/// `Fetching`, the status gate alone runs, and the body bytes are the
/// result.  Any validator failure aborts the poll with that failure.
pub open spec fn step_spec(cfg: PollConfig, state: PollState, resp: RespV, addr: Seq<char>) -> OutcomeV {
    match state {
        PollState::Awaiting { tries } => match json_gate(resp) {
            Err(e) => OutcomeV::Failure { error: e },
            Ok(f) => if f.captured == Some(true) {
                OutcomeV::Continue { state: PollState::Locating, url: info_url(addr), delay_ms: 0 }
            } else if tries < cfg.retries {
                OutcomeV::Continue {
                    state: PollState::Awaiting { tries: (tries + 1) as u32 },
                    url: info_url(addr),
                    delay_ms: cfg.interval_ms,
                }
            } else {
                OutcomeV::Failure { error: ErrorV::NotCaptured }
            },
        },
        PollState::Locating => match json_gate(resp) {
            Err(e) => OutcomeV::Failure { error: e },
            Ok(f) => match (f.dir, f.file) {
                (Some(d), Some(fl)) => OutcomeV::Continue {
                    state: PollState::Fetching,
                    url: photo_url(addr, d, fl),
                    delay_ms: 0,
                },
                _ => OutcomeV::Failure { error: ErrorV::Message },
            },
        },
        PollState::Fetching => if status_success(resp.status) {
            OutcomeV::Success { bytes: resp.body }
        } else {
            OutcomeV::Failure { error: ErrorV::Status(resp.status_text) }
        },
    }
}

/// The poll's entry point: the first request is the status endpoint, with no
/// delay before it.
pub fn poll_begin(addr: &str) -> (r: (PollState, String))
    ensures
        r.0 == (PollState::Awaiting { tries: 0u32 }),
        r.1@ == info_url(addr@),
{
    (PollState::Awaiting { tries: 0 }, make_info_url(addr))
}

/// One poller step as executable code, proved equal to `step_spec`.
pub fn poll_step(cfg: &PollConfig, state: PollState, resp: HttpResp, addr: &str) -> (r: PollOutcome)
    ensures
        r@ == step_spec(*cfg, state, resp@, addr@),
{
    match state {
        PollState::Awaiting { tries } => match check_envelope(&resp) {
            Err(e) => PollOutcome::Failure { error: e },
            Ok(f) => {
                let is_captured: bool = match f.captured {
                    Some(true) => true,
                    _ => false,
                };
                if is_captured {
                    PollOutcome::Continue {
                        state: PollState::Locating,
                        url: make_info_url(addr),
                        delay_ms: 0,
                    }
                } else if tries < cfg.retries {
                    PollOutcome::Continue {
                        state: PollState::Awaiting { tries: tries + 1 },
                        url: make_info_url(addr),
                        delay_ms: cfg.interval_ms,
                    }
                } else {
                    PollOutcome::Failure { error: Error::NotCaptured }
                }
            },
        },
        PollState::Locating => match check_envelope(&resp) {
            Err(e) => PollOutcome::Failure { error: e },
            Ok(f) => match (f.dir, f.file) {
                (Some(d), Some(fl)) => PollOutcome::Continue {
                    state: PollState::Fetching,
                    url: make_photo_url(addr, d.as_str(), fl.as_str()),
                    delay_ms: 0,
                },
                _ => PollOutcome::Failure { error: Error::MessageError },
            },
        },
        PollState::Fetching => {
            if status_is_success(resp.status) {
                PollOutcome::Success { bytes: resp.body }
            } else {
                PollOutcome::Failure { error: Error::StatusCode(resp.status_text) }
            }
        },
    }
}

/// Where a poll run ends, given a sequence of responses: either it consumed
/// them all and a request is still pending, or it finished.
pub ghost enum RunEnd {
    Pending { state: PollState, url: Seq<char>, delay_ms: u64 },
    Success { bytes: Seq<u8> },
    Failure { error: ErrorV },
}

/// Folds `step_spec` over a sequence of responses, one response per issued
/// request, starting from `state` with `url` pending after `delay_ms`.
pub open spec fn run_from(
    cfg: PollConfig,
    state: PollState,
    url: Seq<char>,
    delay_ms: u64,
    addr: Seq<char>,
    resps: Seq<RespV>,
) -> RunEnd
    decreases resps.len(),
{
    if resps.len() == 0 {
        RunEnd::Pending { state, url, delay_ms }
    } else {
        match step_spec(cfg, state, resps[0], addr) {
            OutcomeV::Continue { state: st, url: u, delay_ms: d } => run_from(
                cfg,
                st,
                u,
                d,
                addr,
                resps.drop_first(),
            ),
            OutcomeV::Success { bytes } => RunEnd::Success { bytes },
            OutcomeV::Failure { error } => RunEnd::Failure { error },
        }
    }
}

proof fn lemma_await_notcap_exhausts(
    cfg: PollConfig,
    tries: u32,
    url: Seq<char>,
    delay_ms: u64,
    addr: Seq<char>,
    resps: Seq<RespV>,
)
    requires
        tries <= cfg.retries,
        resps.len() == cfg.retries - tries + 1,
        forall|i: int| 0 <= i < resps.len() ==> not_captured_ok(#[trigger] resps[i]),
    ensures
        run_from(cfg, PollState::Awaiting { tries }, url, delay_ms, addr, resps) == (
        RunEnd::Failure { error: ErrorV::NotCaptured }),
    decreases resps.len(),
{
    assert(not_captured_ok(resps[0]));
    if tries < cfg.retries {
        let rest = resps.drop_first();
        assert forall|i: int| 0 <= i < rest.len() implies not_captured_ok(#[trigger] rest[i]) by {
            assert(rest[i] == resps[i + 1]);
        }
        lemma_await_notcap_exhausts(
            cfg,
            (tries + 1) as u32,
            info_url(addr),
            cfg.interval_ms,
            addr,
            rest,
        );
    }
}

/// Await-ready exhaustion: when every status query is answered with a good
/// envelope that does not report `captured: true`, the poller issues exactly
/// one query per configured attempt — `retries + 1` in all — and then fails
/// with `NotCaptured`, consuming every one of those answers.
pub proof fn lemma_poll_gives_up(
    cfg: PollConfig,
    url: Seq<char>,
    delay_ms: u64,
    addr: Seq<char>,
    resps: Seq<RespV>,
)
    requires
        resps.len() == cfg.retries + 1,
        forall|i: int| 0 <= i < resps.len() ==> not_captured_ok(#[trigger] resps[i]),
    ensures
        run_from(cfg, PollState::Awaiting { tries: 0u32 }, url, delay_ms, addr, resps) == (
        RunEnd::Failure { error: ErrorV::NotCaptured }),
{
    lemma_await_notcap_exhausts(cfg, 0u32, url, delay_ms, addr, resps);
}

/// While the retry budget lasts, every not-captured answer leads to exactly
/// one more status query, spaced by the configured interval: after `k` such
/// answers within the budget, the poller is still awaiting, with the status
/// endpoint pending after `interval_ms`.
pub proof fn lemma_poll_keeps_trying(
    cfg: PollConfig,
    tries: u32,
    url: Seq<char>,
    delay_ms: u64,
    addr: Seq<char>,
    resps: Seq<RespV>,
)
    requires
        tries + resps.len() <= cfg.retries,
        1 <= resps.len(),
        forall|i: int| 0 <= i < resps.len() ==> not_captured_ok(#[trigger] resps[i]),
    ensures
        run_from(cfg, PollState::Awaiting { tries }, url, delay_ms, addr, resps) == (
        RunEnd::Pending {
            state: PollState::Awaiting { tries: (tries + resps.len()) as u32 },
            url: info_url(addr),
            delay_ms: cfg.interval_ms,
        }),
    decreases resps.len(),
{
    assert(not_captured_ok(resps[0]));
    let rest = resps.drop_first();
    assert forall|i: int| 0 <= i < rest.len() implies not_captured_ok(#[trigger] rest[i]) by {
        assert(rest[i] == resps[i + 1]);
    }
    if rest.len() > 0 {
        lemma_poll_keeps_trying(cfg, (tries + 1) as u32, info_url(addr), cfg.interval_ms, addr, rest);
    }
}

/// One not-captured answer followed by a captured one: the poller proceeds
/// to the locate phase after those two queries, with the status endpoint
/// pending a third time and no wait before it.
pub proof fn lemma_poll_proceeds_when_ready(
    cfg: PollConfig,
    url: Seq<char>,
    delay_ms: u64,
    addr: Seq<char>,
    r1: RespV,
    r2: RespV,
)
    requires
        cfg.retries >= 1,
        not_captured_ok(r1),
        captured_ok(r2),
    ensures
        run_from(cfg, PollState::Awaiting { tries: 0u32 }, url, delay_ms, addr, seq![r1, r2]) == (
        RunEnd::Pending { state: PollState::Locating, url: info_url(addr), delay_ms: 0 }),
{
    let resps = seq![r1, r2];
    let rest = resps.drop_first();
    assert(rest =~= seq![r2]);
    assert(rest.drop_first() =~= Seq::<RespV>::empty());
    assert(step_spec(cfg, PollState::Awaiting { tries: 0u32 }, resps[0], addr) == (
    OutcomeV::Continue {
        state: PollState::Awaiting { tries: 1u32 },
        url: info_url(addr),
        delay_ms: cfg.interval_ms,
    }));
    assert(step_spec(cfg, PollState::Awaiting { tries: 1u32 }, rest[0], addr) == (
    OutcomeV::Continue { state: PollState::Locating, url: info_url(addr), delay_ms: 0u64 }));
    assert(run_from(cfg, PollState::Locating, info_url(addr), 0u64, addr, rest.drop_first()) == (
    RunEnd::Pending { state: PollState::Locating, url: info_url(addr), delay_ms: 0u64 }));
    assert(run_from(cfg, PollState::Awaiting { tries: 1u32 }, info_url(addr), cfg.interval_ms, addr, rest)
        == (RunEnd::Pending { state: PollState::Locating, url: info_url(addr), delay_ms: 0u64 }));
}

/// The locate answer determines the download request: with `dir` and `file`
/// present as strings, the next request is exactly the photo URL composed
/// from them, with no wait before it.
pub proof fn lemma_locate_requests_photo(
    cfg: PollConfig,
    resp: RespV,
    addr: Seq<char>,
    d: Seq<char>,
    fl: Seq<char>,
)
    requires
        json_gate(resp) matches Ok(f) && f.dir == Some(d) && f.file == Some(fl),
    ensures
        step_spec(cfg, PollState::Locating, resp, addr) == (OutcomeV::Continue {
            state: PollState::Fetching,
            url: photo_url(addr, d, fl),
            delay_ms: 0,
        }),
{
}

/// A locate answer whose `dir` or `file` is missing or not a string aborts
/// the poll as malformed.
pub proof fn lemma_locate_malformed(cfg: PollConfig, resp: RespV, addr: Seq<char>)
    requires
        json_gate(resp) matches Ok(f) && (f.dir is None || f.file is None),
    ensures
        step_spec(cfg, PollState::Locating, resp, addr) == (OutcomeV::Failure {
            error: ErrorV::Message,
        }),
{
}

/// The download phase runs the status gate alone and returns the body bytes
/// unchanged, byte for byte.
pub proof fn lemma_fetch_returns_body(cfg: PollConfig, resp: RespV, addr: Seq<char>)
    requires
        status_success(resp.status),
    ensures
        step_spec(cfg, PollState::Fetching, resp, addr) == (OutcomeV::Success {
            bytes: resp.body,
        }),
{
}

/// A full successful round trip: a not-captured answer, a captured answer, a
/// locate answer naming `dir` and `file`, and the download itself — four
/// requests in all, ending with the downloaded bytes exactly as sent.
pub proof fn lemma_poll_round_trip(
    cfg: PollConfig,
    url: Seq<char>,
    delay_ms: u64,
    addr: Seq<char>,
    r1: RespV,
    r2: RespV,
    r3: RespV,
    r4: RespV,
    d: Seq<char>,
    fl: Seq<char>,
)
    requires
        cfg.retries >= 1,
        not_captured_ok(r1),
        captured_ok(r2),
        json_gate(r3) matches Ok(f) && f.dir == Some(d) && f.file == Some(fl),
        status_success(r4.status),
    ensures
        run_from(
            cfg,
            PollState::Awaiting { tries: 0u32 },
            url,
            delay_ms,
            addr,
            seq![r1, r2, r3, r4],
        ) == (RunEnd::Success { bytes: r4.body }),
{
    let s0 = seq![r1, r2, r3, r4];
    let s1 = s0.drop_first();
    let s2 = s1.drop_first();
    let s3 = s2.drop_first();
    assert(s1 =~= seq![r2, r3, r4]);
    assert(s2 =~= seq![r3, r4]);
    assert(s3 =~= seq![r4]);
    assert(s3.drop_first() =~= Seq::<RespV>::empty());
    assert(step_spec(cfg, PollState::Awaiting { tries: 0u32 }, s0[0], addr) == (
    OutcomeV::Continue {
        state: PollState::Awaiting { tries: 1u32 },
        url: info_url(addr),
        delay_ms: cfg.interval_ms,
    }));
    assert(step_spec(cfg, PollState::Awaiting { tries: 1u32 }, s1[0], addr) == (
    OutcomeV::Continue { state: PollState::Locating, url: info_url(addr), delay_ms: 0u64 }));
    assert(step_spec(cfg, PollState::Locating, s2[0], addr) == (OutcomeV::Continue {
        state: PollState::Fetching,
        url: photo_url(addr, d, fl),
        delay_ms: 0u64,
    }));
    assert(step_spec(cfg, PollState::Fetching, s3[0], addr) == (OutcomeV::Success {
        bytes: r4.body,
    }));
    assert(run_from(cfg, PollState::Fetching, photo_url(addr, d, fl), 0u64, addr, s3) == (
    RunEnd::Success { bytes: r4.body }));
    assert(run_from(cfg, PollState::Locating, info_url(addr), 0u64, addr, s2) == (
    RunEnd::Success { bytes: r4.body }));
    assert(run_from(cfg, PollState::Awaiting { tries: 1u32 }, info_url(addr), cfg.interval_ms, addr, s1)
        == (RunEnd::Success { bytes: r4.body }));
}

} // verus!
