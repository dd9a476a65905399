use bsk::cli::dialogs::write_dialog_summaries;
use bsk::protocol::dialog::{
    JavaScriptDialogHandledAction, JavaScriptDialogInfo, JavaScriptDialogType,
};
use bsk::protocol::human_loop::HelpOutcome;
use bsk::protocol::waits::WaitForNavigationReached;

#[test]
fn write_dialog_summaries_writes_nothing_for_empty() {
    let mut out = Vec::new();
    write_dialog_summaries(&mut out, &[]);
    assert!(out.is_empty());
}

#[test]
fn write_dialog_summaries_writes_entry() {
    let mut out = Vec::new();
    write_dialog_summaries(
        &mut out,
        &[JavaScriptDialogInfo {
            tab_id: 4,
            dialog_type: JavaScriptDialogType::Alert,
            message: "hello".into(),
            url: Some("https://example.com/".into()),
            default_prompt: None,
            has_browser_handler: Some(false),
            handled: JavaScriptDialogHandledAction::Accepted,
            sequence: 1,
        }],
    );
    let rendered = out.join("\n");
    assert!(rendered.contains("dialog: type=alert handled=accepted message=hello"));
    assert!(rendered.contains("url=https://example.com/"));
}

#[test]
fn dialog_summaries_list_each_dialog_with_its_prompt() {
    let mut out = vec!["kept".to_string()];
    write_dialog_summaries(
        &mut out,
        &[
            JavaScriptDialogInfo {
                tab_id: 1,
                dialog_type: JavaScriptDialogType::Prompt,
                message: "name?".into(),
                url: None,
                default_prompt: Some("bob".into()),
                has_browser_handler: None,
                handled: JavaScriptDialogHandledAction::Dismissed,
                sequence: 2,
            },
            JavaScriptDialogInfo {
                tab_id: 1,
                dialog_type: JavaScriptDialogType::BeforeUnload,
                message: "".into(),
                url: None,
                default_prompt: None,
                has_browser_handler: None,
                handled: JavaScriptDialogHandledAction::Accepted,
                sequence: 3,
            },
        ],
    );
    assert_eq!(
        out,
        vec![
            "kept",
            "dialog: type=prompt handled=dismissed message=name?",
            "  default_prompt=bob",
            "dialog: type=beforeunload handled=accepted message=",
        ]
    );
}

#[test]
fn wire_names_of_enums() {
    assert_eq!(JavaScriptDialogType::Confirm.as_str(), "confirm");
    assert_eq!(JavaScriptDialogHandledAction::Dismissed.as_str(), "dismissed");
    assert_eq!(HelpOutcome::TimedOut.as_str(), "timed_out");
    assert_eq!(HelpOutcome::Disabled.as_str(), "disabled");
    assert_eq!(WaitForNavigationReached::DomContentLoaded.as_str(), "domcontentloaded");
    assert_eq!(WaitForNavigationReached::NetworkIdle.as_str(), "networkidle");
}
