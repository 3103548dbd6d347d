use pentaxctl::error::Error;
use pentaxctl::poller::{poll_begin, poll_step, PollConfig, PollOutcome, PollState};
use pentaxctl::response::HttpResp;

const ADDR: &str = "192.168.0.1";

fn resp(status: u16, status_text: &str, body: &[u8]) -> HttpResp {
    HttpResp { status, status_text: status_text.to_string(), body: body.to_vec() }
}

fn not_captured() -> HttpResp {
    resp(200, "200 OK", b"{\"errCode\":200,\"captured\":false}")
}

fn captured() -> HttpResp {
    resp(200, "200 OK", b"{\"errCode\":200,\"captured\":true}")
}

fn locate_answer() -> HttpResp {
    resp(
        200,
        "200 OK",
        b"{\"captured\":true,\"dir\":\"100\",\"file\":\"IMG01.DNG\",\"errCode\":200}",
    )
}

#[test]
fn default_policy_values() {
    let cfg = PollConfig::default();
    assert_eq!(cfg.retries, 3);
    assert_eq!(cfg.interval_ms, 1000);
}

#[test]
fn poll_begins_with_status_query() {
    let (state, url) = poll_begin(ADDR);
    assert_eq!(state, PollState::Awaiting { tries: 0 });
    assert_eq!(url, "http://192.168.0.1/v1/photos/latest/info");
}

#[test]
fn poll_gives_up_after_four_queries() {
    let cfg = PollConfig::default();
    let (mut state, _url) = poll_begin(ADDR);
    let mut queries: u32 = 0;
    // Three not-captured answers are retried, each after the fixed interval.
    for _round in 0..3 {
        queries += 1;
        match poll_step(&cfg, state, not_captured(), ADDR) {
            PollOutcome::Continue { state: st, url, delay_ms } => {
                assert_eq!(url, "http://192.168.0.1/v1/photos/latest/info");
                assert_eq!(delay_ms, 1000);
                state = st;
            },
            _ => panic!("the poller must keep trying within the budget"),
        }
    }
    // The fourth not-captured answer exhausts the budget.
    queries += 1;
    match poll_step(&cfg, state, not_captured(), ADDR) {
        PollOutcome::Failure { error } => assert!(matches!(error, Error::NotCaptured)),
        _ => panic!("the poller must give up after the retry budget"),
    }
    assert_eq!(queries, 4);
}

#[test]
fn poll_proceeds_to_locate_when_ready() {
    let cfg = PollConfig::default();
    let (state, _url) = poll_begin(ADDR);
    let state = match poll_step(&cfg, state, not_captured(), ADDR) {
        PollOutcome::Continue { state: st, .. } => st,
        _ => panic!("one not-captured answer is within the budget"),
    };
    // The second query reports the capture: the locate query follows at once.
    match poll_step(&cfg, state, captured(), ADDR) {
        PollOutcome::Continue { state: st, url, delay_ms } => {
            assert_eq!(st, PollState::Locating);
            assert_eq!(url, "http://192.168.0.1/v1/photos/latest/info");
            assert_eq!(delay_ms, 0);
        },
        _ => panic!("a captured answer must move the poller to the locate phase"),
    }
}

#[test]
fn poll_can_succeed_on_the_first_query() {
    let cfg = PollConfig::default();
    let (state, _url) = poll_begin(ADDR);
    match poll_step(&cfg, state, captured(), ADDR) {
        PollOutcome::Continue { state: st, url, delay_ms } => {
            assert_eq!(st, PollState::Locating);
            assert_eq!(url, "http://192.168.0.1/v1/photos/latest/info");
            assert_eq!(delay_ms, 0);
        },
        _ => panic!("an immediately captured answer must skip every retry"),
    }
}

#[test]
fn zero_retry_policy_gives_up_at_once() {
    let cfg = PollConfig { retries: 0, interval_ms: 1 };
    let (state, _url) = poll_begin(ADDR);
    match poll_step(&cfg, state, not_captured(), ADDR) {
        PollOutcome::Failure { error } => assert!(matches!(error, Error::NotCaptured)),
        _ => panic!("with no retry budget the first not-captured answer ends the poll"),
    }
}

#[test]
fn locate_composes_the_download_request() {
    let cfg = PollConfig::default();
    match poll_step(&cfg, PollState::Locating, locate_answer(), ADDR) {
        PollOutcome::Continue { state, url, delay_ms } => {
            assert_eq!(state, PollState::Fetching);
            assert_eq!(url, "http://192.168.0.1/v1/photos/100/IMG01.DNG");
            assert_eq!(delay_ms, 0);
        },
        _ => panic!("a complete locate answer must lead to the download"),
    }
}

#[test]
fn locate_with_missing_file_is_malformed() {
    let cfg = PollConfig::default();
    let r = poll_step(
        &cfg,
        PollState::Locating,
        resp(200, "200 OK", b"{\"captured\":true,\"dir\":\"100\",\"errCode\":200}"),
        ADDR,
    );
    match r {
        PollOutcome::Failure { error } => assert!(matches!(error, Error::MessageError)),
        _ => panic!("a locate answer without file must abort the poll"),
    }
}

#[test]
fn fetch_returns_the_body_unchanged() {
    let cfg = PollConfig::default();
    let image: Vec<u8> = vec![0x49, 0x49, 0x2a, 0x00, 0xff, 0x00, 0x7f];
    match poll_step(&cfg, PollState::Fetching, resp(200, "200 OK", &image), ADDR) {
        PollOutcome::Success { bytes } => assert_eq!(bytes, image),
        _ => panic!("a delivered download must return its bytes"),
    }
}

#[test]
fn fetch_runs_the_status_gate() {
    let cfg = PollConfig::default();
    match poll_step(&cfg, PollState::Fetching, resp(404, "404 Not Found", b"gone"), ADDR) {
        PollOutcome::Failure { error } => {
            assert!(matches!(error, Error::StatusCode(m) if m == "404 Not Found"))
        },
        _ => panic!("a failed download must abort the poll"),
    }
}

#[test]
fn await_aborts_on_device_failure() {
    let cfg = PollConfig::default();
    let (state, _url) = poll_begin(ADDR);
    let r = poll_step(
        &cfg,
        state,
        resp(200, "200 OK", b"{\"errCode\":500,\"errMsg\":\"busy\"}"),
        ADDR,
    );
    match r {
        PollOutcome::Failure { error } => {
            assert!(matches!(error, Error::StatusCode(m) if m == "busy"))
        },
        _ => panic!("a device-reported failure must abort the poll"),
    }
}

#[test]
fn await_retries_when_captured_is_absent() {
    // The capture-status record may lack `captured` entirely; that is not a
    // completed capture, so the poller keeps waiting.
    let cfg = PollConfig::default();
    let (state, _url) = poll_begin(ADDR);
    match poll_step(&cfg, state, resp(200, "200 OK", b"{\"errCode\":200}"), ADDR) {
        PollOutcome::Continue { state: st, delay_ms, .. } => {
            assert_eq!(st, PollState::Awaiting { tries: 1 });
            assert_eq!(delay_ms, 1000);
        },
        _ => panic!("an answer without captured must be retried"),
    }
}
