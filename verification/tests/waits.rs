use std::time::Duration;

use bsk::cli::flow::{Action, Format, IpcTimeout, Step};
use bsk::cli::navigate::{parse_timeout_ms, CliWaitUntil};
use bsk::cli::waits::{
    dispatch_wait_for_navigation, dispatch_wait_ms, parse_duration_ms, WaitForNavigationArgs,
    WaitMsArgs,
};
use bsk::protocol::waits::{WaitForNavigationReached, WaitForNavigationResult, WaitMsResult};

#[test]
fn parses_duration_strings() {
    assert_eq!(parse_duration_ms("0").unwrap(), 0);
    assert_eq!(parse_duration_ms("0ms").unwrap(), 0);
    assert_eq!(parse_duration_ms("500").unwrap(), 500);
    assert_eq!(parse_duration_ms("30s").unwrap(), 30_000);
    assert_eq!(parse_duration_ms("500ms").unwrap(), 500);
    assert_eq!(parse_duration_ms("1m").unwrap(), 60_000);
    assert!(parse_duration_ms("nope").is_err());
    assert!(parse_duration_ms("").is_err());
    assert!(parse_duration_ms("-1").is_err());
}

#[test]
fn duration_and_timeout_read_the_same_grammar() {
    for text in ["1", "250ms", "30s", "2m", " 9 s "] {
        let t = parse_timeout_ms(text).unwrap();
        assert_eq!(parse_duration_ms(text).unwrap(), u64::from(t));
    }
    assert_eq!(parse_duration_ms("").unwrap_err(), "empty duration");
    assert_eq!(
        parse_duration_ms("x").unwrap_err(),
        "invalid duration 'x': expected non-negative integer"
    );
    // No upper bound: minutes saturate at u64::MAX.
    assert_eq!(parse_duration_ms("18446744073709551615m").unwrap(), u64::MAX);
}

#[test]
fn wait_for_navigation_reports_reached_phase() {
    let args = WaitForNavigationArgs {
        session: "s".into(),
        tab_id: Some(9),
        wait_until: CliWaitUntil::Load,
        timeout: 30_000,
    };
    match dispatch_wait_for_navigation(&args, Format::Human, Step::DaemonReady) {
        Action::Call(c) => {
            assert_eq!(c.id, "wait-nav");
            assert_eq!(c.params.tab_id, Some(9));
            assert_eq!(c.timeout, IpcTimeout::Custom(Duration::from_secs(45)));
        }
        other => panic!("unexpected {other:?}"),
    }
    let reply = WaitForNavigationResult {
        tab_id: 9,
        reached: WaitForNavigationReached::Timeout,
        error_text: Some("timed out waiting for lifecycle \"load\"".into()),
        dialogs: vec![],
    };
    match dispatch_wait_for_navigation(&args, Format::Human, Step::Replied(reply)) {
        Action::Print(out) => {
            assert_eq!(out.stdout, vec!["tab=9 reached=timeout"]);
            assert_eq!(out.stderr, vec!["warning: timed out waiting for lifecycle \"load\""]);
        }
        other => panic!("unexpected {other:?}"),
    }
}

#[test]
fn wait_ms_budget_and_rendering() {
    let args = WaitMsArgs { duration: 250 };
    match dispatch_wait_ms(&args, Format::Human, Step::DaemonReady) {
        Action::Call(c) => {
            assert_eq!(c.params.duration_ms, 250);
            assert_eq!(
                c.timeout,
                IpcTimeout::Custom(Duration::from_millis(250) + Duration::from_secs(15))
            );
        }
        other => panic!("unexpected {other:?}"),
    }
    match dispatch_wait_ms(&args, Format::Human, Step::Replied(WaitMsResult { waited_ms: 250 })) {
        Action::Print(out) => assert_eq!(out.stdout, vec!["waited_ms=250"]),
        other => panic!("unexpected {other:?}"),
    }
    let huge = WaitMsArgs { duration: u64::MAX };
    match dispatch_wait_ms(&huge, Format::Human, Step::DaemonReady) {
        Action::Call(c) => assert_eq!(
            c.timeout,
            IpcTimeout::Custom(Duration::from_millis(u64::MAX) + Duration::from_secs(15))
        ),
        other => panic!("unexpected {other:?}"),
    }
}
