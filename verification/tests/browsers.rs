use std::time::Duration;

use bsk::cli::browsers::{browser_table, dispatch, BrowserListQuery, ListReply};
use bsk::cli::flow::{Action, Format, IpcTimeout, Step};
use bsk::protocol::system::BrowserStatusEntry;

fn entry(id: &str, label: &str, sessions: u64) -> BrowserStatusEntry {
    BrowserStatusEntry {
        instance_id: id.into(),
        browser_name: "Chrome".into(),
        browser_version: "120".into(),
        extension_version: "0.1.0".into(),
        label: label.into(),
        session_count: sessions,
    }
}

#[test]
fn empty_list_prints_placeholder() {
    assert_eq!(browser_table(&vec![]), vec!["(no browsers connected)"]);
}

#[test]
fn table_columns_are_padded_to_widest_cell() {
    let lines = browser_table(&vec![entry("a1", "", 0), entry("instance-long", "work", 12)]);
    assert_eq!(
        lines,
        vec![
            "INSTANCE       BROWSER     EXT    LABEL  SESSIONS",
            "a1             Chrome 120  0.1.0  -      0",
            "instance-long  Chrome 120  0.1.0  work   12",
        ]
    );
}

#[test]
fn non_ascii_cells_pad_by_characters_after_measuring_bytes() {
    // Widths are measured in bytes, padding counts characters, as the
    // `{:<w$}` formatting of byte-length widths does.
    let lines = browser_table(&vec![entry("é", "x", 1)]);
    let expected = format!("{:<8}  {:<10}  {:<5}  {:<5}  {}", "é", "Chrome 120", "0.1.0", "x", 1);
    assert_eq!(lines[1], expected);
}

#[test]
fn browsers_flow_uses_query_budget() {
    let query = BrowserListQuery { wait_for_browser_ms: 3_000, timeout: Duration::from_secs(8) };
    match dispatch(Format::Human, &query, Step::DaemonReady) {
        Action::Call(c) => {
            assert_eq!(c.id, "browser-list-1");
            assert_eq!(c.params.wait_for_browser_ms, 3_000);
            assert_eq!(c.timeout, IpcTimeout::Custom(Duration::from_secs(8)));
        }
        other => panic!("unexpected {other:?}"),
    }
    let reply = ListReply { browsers: vec![entry("a", "l", 2)] };
    match dispatch(Format::Json, &query, Step::Replied(reply)) {
        Action::PrintJson(list) => assert_eq!(list.len(), 1),
        other => panic!("unexpected {other:?}"),
    }
}
