//! Human-mode summaries of in-band JavaScript dialog payloads.

use vstd::prelude::*;

use crate::cli::flow::{push_line, texts};
use crate::protocol::dialog::{dialog_type_name, handled_action_name, JavaScriptDialogInfo};
use crate::text::concat;

verus! {

/// The summary lines of one dialog: kind, resolution and message, then
/// the URL and the default prompt when present.
pub open spec fn dialog_summary(d: JavaScriptDialogInfo) -> Seq<Seq<char>> {
    seq![
        "dialog: type="@ + dialog_type_name(d.dialog_type) + " handled="@ + handled_action_name(
            d.handled,
        ) + " message="@ + d.message@,
    ] + (if d.url is Some {
        seq!["  url="@ + d.url->0@]
    } else {
        Seq::empty()
    }) + (if d.default_prompt is Some {
        seq!["  default_prompt="@ + d.default_prompt->0@]
    } else {
        Seq::empty()
    })
}

/// The summary lines of each dialog, in order.
pub open spec fn dialog_summaries(ds: Seq<JavaScriptDialogInfo>) -> Seq<Seq<char>>
    decreases ds.len(),
{
    if ds.len() == 0 {
        Seq::empty()
    } else {
        dialog_summaries(ds.drop_last()) + dialog_summary(ds.last())
    }
}

/// Append a one-line summary per dialog (plus its URL / default prompt
/// lines) to `out`.
pub fn write_dialog_summaries(out: &mut Vec<String>, dialogs: &[JavaScriptDialogInfo])
    ensures
        texts(final(out)@) == texts(old(out)@) + dialog_summaries(dialogs@),
{
    let mut i: usize = 0;
    while i < dialogs.len()
        invariant
            i <= dialogs@.len(),
            texts(out@) == texts(old(out)@) + dialog_summaries(dialogs@.take(i as int)),
        decreases dialogs@.len() - i,
    {
        let dialog = &dialogs[i];
        let ghost before = texts(out@);
        let head = concat("dialog: type=", dialog.dialog_type.as_str());
        let head = concat(head.as_str(), " handled=");
        let head = concat(head.as_str(), dialog.handled.as_str());
        let head = concat(head.as_str(), " message=");
        let head = concat(head.as_str(), dialog.message.as_str());
        push_line(out, head);
        if let Some(url) = &dialog.url {
            push_line(out, concat("  url=", url.as_str()));
        }
        if let Some(prompt) = &dialog.default_prompt {
            push_line(out, concat("  default_prompt=", prompt.as_str()));
        }
        proof {
            let next = dialogs@.take(i + 1);
            assert(next.drop_last() =~= dialogs@.take(i as int));
            assert(next.last() == dialogs@[i as int]);
            assert(texts(out@) =~= before + dialog_summary(dialogs@[i as int]));
        }
        i = i + 1;
    }
    assert(dialogs@.take(dialogs@.len() as int) =~= dialogs@);
}

} // verus!
