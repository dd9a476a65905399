use std::path::PathBuf;

use bsk::cli::flow::Format;
use bsk::cli::get_html::{dispatch, GetHtmlAction, GetHtmlArgs, GetHtmlStep};
use bsk::protocol::get_html::GetHtmlResult;

fn reply(truncated: bool) -> GetHtmlResult {
    GetHtmlResult {
        tab_id: 3,
        html: "<p>x</p>".into(),
        byte_size: 2048,
        truncated,
        dialogs: vec![],
    }
}

fn args(out: Option<PathBuf>) -> GetHtmlArgs {
    GetHtmlArgs { session: "s".into(), tab_id: None, ref_: Some("@e3".into()), max_bytes: Some(10), out }
}

#[test]
fn html_to_stdout_with_truncation_warning() {
    match dispatch(&args(None), Format::Human, GetHtmlStep::Replied(reply(true))) {
        GetHtmlAction::Print(out) => {
            assert_eq!(out.stdout, vec!["<p>x</p>"]);
            assert_eq!(
                out.stderr,
                vec!["warning: HTML truncated (full size 2048 bytes). Pass `--max-bytes N` to widen."]
            );
        }
        other => panic!("unexpected {other:?}"),
    }
}

#[test]
fn html_to_file_is_saved_first_then_summarized() {
    let a = args(Some(PathBuf::from("/tmp/page.html")));
    assert!(matches!(
        dispatch(&a, Format::Human, GetHtmlStep::Replied(reply(false))),
        GetHtmlAction::Save(_)
    ));
    match dispatch(&a, Format::Human, GetHtmlStep::Saved(reply(true))) {
        GetHtmlAction::Print(out) => {
            assert_eq!(out.stdout, vec!["tab=3 bytes=2048 truncated=true"]);
            assert!(out.stderr.is_empty());
        }
        other => panic!("unexpected {other:?}"),
    }
    match dispatch(&a, Format::Human, GetHtmlStep::DaemonReady) {
        GetHtmlAction::Call(c) => {
            assert_eq!(c.params.ref_.as_deref(), Some("@e3"));
            assert_eq!(c.params.max_bytes, Some(10));
        }
        other => panic!("unexpected {other:?}"),
    }
}

#[test]
fn missing_max_bytes_sends_the_protocol_default() {
    let a = GetHtmlArgs { session: "s".into(), tab_id: Some(4), ref_: None, max_bytes: None, out: None };
    match dispatch(&a, Format::Json, GetHtmlStep::DaemonReady) {
        GetHtmlAction::Call(c) => {
            assert_eq!(c.params.max_bytes, Some(524288));
            assert_eq!(c.params.tab_id, Some(4));
        }
        other => panic!("unexpected {other:?}"),
    }
}
