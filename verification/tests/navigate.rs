use std::time::Duration;

use bsk::cli::flow::{Action, Format, IpcTimeout, Step};
use bsk::cli::navigate::{
    dispatch_navigate, dispatch_navigate_command, dispatch_reload, navigate_ipc_timeout,
    parse_timeout_ms, CliWaitUntil, NavigateArgs, NavigateCmd, NavigateCommand,
    NavigateHistoryArgs, NavigateRoute, ReloadArgs,
};
use bsk::protocol::method::Method;
use bsk::protocol::navigation::{NavigateResult, ReloadResult, WaitUntil};

#[test]
fn parses_short_duration_strings() {
    assert_eq!(parse_timeout_ms("30s").unwrap(), 30_000);
    assert_eq!(parse_timeout_ms("250ms").unwrap(), 250);
    assert_eq!(parse_timeout_ms("1m").unwrap(), 60_000);
    assert_eq!(parse_timeout_ms("5").unwrap(), 5); // bare number = milliseconds
    assert_eq!(parse_timeout_ms("5s").unwrap(), 5_000);
    assert!(parse_timeout_ms("0").is_err());
    assert!(parse_timeout_ms("0ms").is_err());
    assert!(parse_timeout_ms("-1").is_err());
    assert!(parse_timeout_ms("1h").is_err());
    assert!(parse_timeout_ms("1d").is_err());
    assert!(parse_timeout_ms("nope").is_err());
    assert!(parse_timeout_ms("").is_err());
}

#[test]
fn cli_wait_until_matches_protocol_enum() {
    assert_eq!(WaitUntil::Load, CliWaitUntil::Load.into());
    assert_eq!(WaitUntil::Commit, CliWaitUntil::Commit.into());
}

#[test]
fn navigate_ipc_timeout_tracks_user_timeout_with_grace() {
    assert_eq!(
        navigate_ipc_timeout(60_000),
        Duration::from_secs(60) + Duration::from_secs(15)
    );
}

#[test]
fn timeout_error_messages_name_the_trimmed_input() {
    assert_eq!(parse_timeout_ms("   ").unwrap_err(), "empty timeout");
    assert_eq!(
        parse_timeout_ms(" nope ").unwrap_err(),
        "invalid timeout 'nope': expected number"
    );
    assert_eq!(
        parse_timeout_ms("0s").unwrap_err(),
        "invalid timeout '0s': must be greater than zero"
    );
    assert_eq!(
        parse_timeout_ms("71583m").unwrap_err(),
        "timeout '71583m' too large for u32 ms"
    );
}

#[test]
fn timeout_grammar_edges() {
    // Whitespace around the whole text and around the number is ignored.
    assert_eq!(parse_timeout_ms("  2 s ").unwrap(), 2_000);
    // An explicit plus sign is accepted, as u64 parsing accepts it.
    assert_eq!(parse_timeout_ms("+7ms").unwrap(), 7);
    // The largest u32 fits; one more does not.
    assert_eq!(parse_timeout_ms("4294967295").unwrap(), u32::MAX);
    assert!(parse_timeout_ms("4294967296").is_err());
    // Saturating multiplication keeps huge minute counts an error.
    assert!(parse_timeout_ms("18446744073709551615m").is_err());
    // A suffix with no number is not a number.
    assert!(parse_timeout_ms("ms").is_err());
    assert!(parse_timeout_ms("s").is_err());
}

#[test]
fn ipc_timeout_keeps_subsecond_part() {
    assert_eq!(
        navigate_ipc_timeout(1_500),
        Duration::from_millis(1_500) + Duration::from_secs(15)
    );
    assert_eq!(
        navigate_ipc_timeout(u32::MAX),
        Duration::from_millis(u64::from(u32::MAX)) + Duration::from_secs(15)
    );
}

fn nav_args(url: Option<&str>, session: Option<&str>) -> NavigateArgs {
    NavigateArgs {
        url: url.map(String::from),
        session: session.map(String::from),
        tab_id: Some(3),
        wait_until: CliWaitUntil::NetworkIdle,
        timeout: 30_000,
    }
}

#[test]
fn navigate_requires_url_then_session() {
    match dispatch_navigate(&nav_args(None, Some("s")), Format::Human, Step::DaemonReady) {
        Action::Fail(e) => assert_eq!(e.to_string(), "navigate requires a url"),
        other => panic!("unexpected {other:?}"),
    }
    match dispatch_navigate(&nav_args(Some("https://a/"), None), Format::Human, Step::DaemonReady) {
        Action::Fail(e) => assert_eq!(e.to_string(), "navigate requires --session <session-id>"),
        other => panic!("unexpected {other:?}"),
    }
}

#[test]
fn navigate_builds_request() {
    match dispatch_navigate(&nav_args(Some("https://a/"), Some("s1")), Format::Human, Step::DaemonReady) {
        Action::Call(c) => {
            assert_eq!(c.id, "navigate-1");
            assert_eq!(c.method, Method::ToolNavigate);
            assert_eq!(c.params.url, "https://a/");
            assert_eq!(c.params.session_id, "s1");
            assert_eq!(c.params.tab_id, Some(3));
            assert_eq!(c.params.wait_until, Some(WaitUntil::NetworkIdle));
            assert_eq!(c.params.timeout_ms, Some(30_000));
            assert_eq!(c.timeout, IpcTimeout::Custom(Duration::from_secs(45)));
        }
        other => panic!("unexpected {other:?}"),
    }
}

#[test]
fn navigate_renders_timeout_warning() {
    let reply = NavigateResult {
        tab_id: -2,
        url: "https://a/".into(),
        final_url: Some("https://b/".into()),
        reached: "timeout".into(),
        error_text: Some("slow".into()),
        dialogs: vec![],
    };
    match dispatch_navigate(&nav_args(Some("https://a/"), Some("s1")), Format::Human, Step::Replied(reply)) {
        Action::Print(out) => {
            assert_eq!(out.stdout, vec!["tab=-2 reached=timeout", "url=https://b/"]);
            assert_eq!(out.stderr, vec!["warning: slow"]);
        }
        other => panic!("unexpected {other:?}"),
    }
    let reply = NavigateResult {
        tab_id: 7,
        url: "https://a/".into(),
        final_url: None,
        reached: "load".into(),
        error_text: Some("ignored".into()),
        dialogs: vec![],
    };
    match dispatch_navigate(&nav_args(Some("https://a/"), Some("s1")), Format::Human, Step::Replied(reply.clone())) {
        Action::Print(out) => {
            assert_eq!(out.stdout, vec!["tab=7 reached=load"]);
            assert!(out.stderr.is_empty());
        }
        other => panic!("unexpected {other:?}"),
    }
    match dispatch_navigate(&nav_args(Some("https://a/"), Some("s1")), Format::Json, Step::Replied(reply.clone())) {
        Action::PrintJson(r) => assert_eq!(r, reply),
        other => panic!("unexpected {other:?}"),
    }
}

#[test]
fn navigate_command_routes_subcommands() {
    let history = NavigateHistoryArgs {
        session: "s".into(),
        tab_id: None,
        wait_until: CliWaitUntil::Load,
        timeout: 15_000,
    };
    let cmd = NavigateCommand {
        command: Some(NavigateCmd::Back(history.clone())),
        args: nav_args(None, None),
    };
    assert!(matches!(dispatch_navigate_command(&cmd), NavigateRoute::Back(a) if *a == history));
    let cmd = NavigateCommand { command: None, args: nav_args(Some("u"), None) };
    assert!(matches!(dispatch_navigate_command(&cmd), NavigateRoute::Navigate(_)));
}

#[test]
fn reload_sends_hard_only_when_asked() {
    let args = ReloadArgs {
        session: "s".into(),
        tab_id: None,
        wait_until: CliWaitUntil::Commit,
        timeout: 15_000,
        hard: false,
    };
    match dispatch_reload(&args, Format::Human, Step::DaemonReady) {
        Action::Call(c) => {
            assert_eq!(c.params.hard, None);
            assert_eq!(c.method, Method::ToolReload);
            assert_eq!(c.id, "reload-1");
        }
        other => panic!("unexpected {other:?}"),
    }
    let args = ReloadArgs { hard: true, ..args };
    match dispatch_reload(&args, Format::Human, Step::DaemonReady) {
        Action::Call(c) => assert_eq!(c.params.hard, Some(true)),
        other => panic!("unexpected {other:?}"),
    }
    let reply = ReloadResult {
        tab_id: 1,
        previous_url: Some("p".into()),
        final_url: Some("f".into()),
        reached: "load".into(),
        error_text: None,
        dialogs: vec![],
    };
    match dispatch_reload(&args, Format::Human, Step::Replied(reply)) {
        Action::Print(out) => assert_eq!(
            out.stdout,
            vec!["reload: tab=1 reached=load", "previous_url=p", "final_url=f"]
        ),
        other => panic!("unexpected {other:?}"),
    }
}
