use std::time::Duration;

use bsk::cli::evaluate::{dispatch, EvaluateArgs};
use bsk::cli::flow::{Action, Format, IpcTimeout, Step};
use bsk::protocol::script::{EvaluateError, EvaluateResult, EvaluatedValue};

fn args() -> EvaluateArgs {
    EvaluateArgs {
        expression: "1+1".into(),
        session: "abcd".into(),
        tab_id: None,
        await_promise: true,
        return_by_value: false,
        timeout: 1_000,
    }
}

fn human(reply: EvaluateResult) -> (Vec<String>, Vec<String>) {
    match dispatch(&args(), Format::Human, Step::Replied(reply)) {
        Action::Print(out) => (out.stdout, out.stderr),
        other => panic!("unexpected {other:?}"),
    }
}

#[test]
fn evaluate_request_carries_options() {
    match dispatch(&args(), Format::Human, Step::DaemonReady) {
        Action::Call(c) => {
            assert_eq!(c.params.expression, "1+1");
            assert_eq!(c.params.await_promise, Some(true));
            assert_eq!(c.params.return_by_value, Some(false));
            assert_eq!(c.params.timeout_ms, Some(1_000));
            assert_eq!(c.timeout, IpcTimeout::Custom(Duration::from_secs(16)));
        }
        other => panic!("unexpected {other:?}"),
    }
}

#[test]
fn evaluate_prints_values_as_json() {
    let string = EvaluateResult {
        ok: true,
        tab_id: 7,
        value: Some(EvaluatedValue { json: "\"hi\"".into() }),
        error: None,
        dialogs: vec![],
    };
    assert_eq!(human(string).0, vec!["\"hi\""]);
    let number = EvaluateResult {
        ok: true,
        tab_id: 7,
        value: Some(EvaluatedValue { json: "2".into() }),
        error: None,
        dialogs: vec![],
    };
    assert_eq!(human(number).0, vec!["2"]);
    let missing = EvaluateResult { ok: true, tab_id: 7, value: None, error: None, dialogs: vec![] };
    assert_eq!(human(missing).0, vec!["null"]);
}

#[test]
fn evaluate_reports_throws_on_stderr() {
    let thrown = EvaluateResult {
        ok: false,
        tab_id: 7,
        value: None,
        error: Some(EvaluateError { text: "Uncaught Error: boom".into(), line: Some(1), column: Some(6) }),
        dialogs: vec![],
    };
    let (out, err) = human(thrown);
    assert!(out.is_empty());
    assert_eq!(err, vec!["evaluate threw: Uncaught Error: boom", "  at line 1, column 6"]);
    let bare = EvaluateResult { ok: false, tab_id: 7, value: None, error: None, dialogs: vec![] };
    assert_eq!(human(bare).1, vec!["evaluate failed: ok=false with no error payload"]);
}
