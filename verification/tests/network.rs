use bsk::cli::flow::{Action, Format, Step};
use bsk::cli::network::{dispatch, render_entry, NetworkArgs};
use bsk::protocol::network::{NetworkEntry, NetworkEntryKind, NetworkResult};

#[test]
fn human_failure_output_uses_ascii_and_displays_unknown_url() {
    let entry = NetworkEntry {
        sequence: 7,
        kind: NetworkEntryKind::Failure,
        method: Some("GET".into()),
        url: None,
        status: None,
        status_text: None,
        mime_type: None,
        resource_type: Some("Fetch".into()),
        error_text: Some("net::ERR_FAILED".into()),
        timestamp: None,
        truncated: false,
    };

    assert_eq!(
        render_entry(&entry),
        "#7 FAILED GET (unknown) - net::ERR_FAILED"
    );
}

fn response(sequence: u64, status: Option<u32>) -> NetworkEntry {
    NetworkEntry {
        sequence,
        kind: NetworkEntryKind::Response,
        method: None,
        url: Some("https://example.test/api".into()),
        status,
        status_text: None,
        mime_type: None,
        resource_type: None,
        error_text: None,
        timestamp: Some(1234.5f64.to_bits()),
        truncated: false,
    }
}

#[test]
fn response_lines_and_placeholders() {
    assert_eq!(render_entry(&response(3, Some(404))), "#3 404 ? https://example.test/api");
    assert_eq!(render_entry(&response(4, None)), "#4 ? ? https://example.test/api");
    let mut failure = response(5, None);
    failure.kind = NetworkEntryKind::Failure;
    failure.url = None;
    assert_eq!(render_entry(&failure), "#5 FAILED ? (unknown) - failed");
}

#[test]
fn network_rendering_covers_empty_and_truncated() {
    let args = NetworkArgs {
        session: "aa11".into(),
        tab_id: None,
        since: Some(2),
        limit: Some(10),
        max_text_chars: None,
    };
    match dispatch(&args, Format::Human, Step::DaemonReady) {
        Action::Call(c) => {
            assert_eq!(c.params.since, Some(2));
            assert_eq!(c.params.limit, Some(10));
        }
        other => panic!("unexpected {other:?}"),
    }
    let empty = NetworkResult { tab_id: 7, entries: vec![], next_since: 4, truncated: true };
    match dispatch(&args, Format::Human, Step::Replied(empty)) {
        Action::Print(out) => {
            assert_eq!(out.stdout, vec!["(no network activity captured)"]);
            assert_eq!(
                out.stderr,
                vec!["warning: network output truncated (next_since=4). Use --since / --limit / --max-text-chars to request a different slice."]
            );
        }
        other => panic!("unexpected {other:?}"),
    }
    let two = NetworkResult {
        tab_id: 7,
        entries: vec![response(1, Some(200)), response(2, Some(500))],
        next_since: 2,
        truncated: false,
    };
    match dispatch(&args, Format::Human, Step::Replied(two)) {
        Action::Print(out) => {
            assert_eq!(out.stdout.len(), 2);
            assert!(out.stderr.is_empty());
        }
        other => panic!("unexpected {other:?}"),
    }
}
