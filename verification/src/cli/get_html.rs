//! `bsk get-html` — dump raw DOM HTML, optionally narrowed to a single
//! subtree by `@eN` ref, to standard output or to a file. Without
//! `--max-bytes` the request carries the protocol's default budget.

use std::path::PathBuf;

use vstd::prelude::*;

use crate::cli::dialogs::{dialog_summaries, write_dialog_summaries};
use crate::cli::flow::{push_line, texts, Format, IpcTimeout, Rendered, RenderedView, RpcCall};
use crate::protocol::get_html::{GetHtmlParams, GetHtmlResult, DEFAULT_MAX_BYTES};
use crate::protocol::method::Method;
use crate::text::{concat, concat3, decimal, decimal_text, signed_decimal, signed_decimal_text};

verus! {

#[verifier::external_type_specification]
#[verifier::external_body]
pub struct ExPathBuf(PathBuf);

#[derive(Debug, Clone, PartialEq)]
pub struct GetHtmlArgs {
    /// Session id (must be active).
    pub session: String,
    /// Target tab. Defaults to the Agent Window's active tab.
    pub tab_id: Option<i64>,
    /// Optional `@eN` ref from the last snapshot.
    pub ref_: Option<String>,
    /// Maximum HTML bytes to return before truncation.
    pub max_bytes: Option<u32>,
    /// Write HTML to this path instead of standard output.
    pub out: Option<PathBuf>,
}

/// What has happened since `bsk get-html` started.
#[derive(Debug)]
pub enum GetHtmlStep {
    /// The daemon is running and reachable.
    DaemonReady,
    /// The daemon answered with the HTML.
    Replied(GetHtmlResult),
    /// The HTML of this reply was written to the output file.
    Saved(GetHtmlResult),
}

/// What `bsk get-html` wants done next.
#[derive(Debug)]
pub enum GetHtmlAction {
    /// Send this request and report the reply.
    Call(RpcCall<GetHtmlParams>),
    /// Write this reply's HTML to the output file of the arguments, then
    /// report `Saved` with the reply.
    Save(GetHtmlResult),
    /// Print this reply as pretty JSON; done.
    PrintJson(GetHtmlResult),
    /// Print these lines; done.
    Print(Rendered),
}

/// Human rendering of the HTML: a size summary when it went to a file,
/// the HTML itself otherwise (with a warning when truncated); dialog
/// summaries follow on standard error.
pub open spec fn html_rendering(reply: GetHtmlResult, to_file: bool) -> RenderedView {
    RenderedView {
        stdout: if to_file {
            seq![
                "tab="@ + signed_decimal_text(reply.tab_id as int) + " bytes="@ + decimal_text(
                    reply.byte_size as nat,
                ) + " truncated="@ + (if reply.truncated {
                    "true"@
                } else {
                    "false"@
                }),
            ]
        } else {
            seq![reply.html@]
        },
        stderr: (if !to_file && reply.truncated {
            seq![
                "warning: HTML truncated (full size "@ + decimal_text(reply.byte_size as nat)
                    + " bytes). Pass `--max-bytes N` to widen."@,
            ]
        } else {
            Seq::empty()
        }) + dialog_summaries(reply.dialogs@),
    }
}

/// The byte budget sent: the one asked for, else the protocol default.
pub open spec fn byte_budget(asked: Option<u32>) -> u32 {
    match asked {
        Some(n) => n,
        None => DEFAULT_MAX_BYTES,
    }
}

/// The request `bsk get-html` sends.
pub fn run(args: &GetHtmlArgs) -> (c: RpcCall<GetHtmlParams>)
    ensures
        c.id@ == "get-html"@,
        c.method == Method::ToolGetHtml,
        c.params.session_id@ == args.session@,
        c.params.tab_id == args.tab_id,
        c.params.ref_ == args.ref_,
        c.params.max_bytes == Some(byte_budget(args.max_bytes)),
        c.timeout == IpcTimeout::Tool,
{
    RpcCall {
        id: "get-html",
        method: Method::ToolGetHtml,
        params: GetHtmlParams {
            session_id: args.session.clone(),
            tab_id: args.tab_id,
            ref_: args.ref_.clone(),
            max_bytes: Some(
                match args.max_bytes {
                    Some(n) => n,
                    None => DEFAULT_MAX_BYTES,
                },
            ),
        },
        timeout: IpcTimeout::Tool,
    }
}

/// Render the reply as JSON, or per `html_rendering` for humans.
pub fn render(reply: GetHtmlResult, to_file: bool, format: Format) -> (r: GetHtmlAction)
    ensures
        format is Json ==> r == GetHtmlAction::PrintJson(reply),
        format is Human ==> (r matches GetHtmlAction::Print(out) && out@ == html_rendering(
            reply,
            to_file,
        )),
{
    match format {
        Format::Json => GetHtmlAction::PrintJson(reply),
        Format::Human => {
            let mut out: Vec<String> = Vec::new();
            let mut err: Vec<String> = Vec::new();
            let size = decimal(reply.byte_size);
            if to_file {
                let tab = signed_decimal(reply.tab_id);
                let line = concat3("tab=", tab.as_str(), " bytes=");
                let line = concat3(line.as_str(), size.as_str(), " truncated=");
                let flag = if reply.truncated {
                    "true"
                } else {
                    "false"
                };
                push_line(&mut out, concat(line.as_str(), flag));
            } else {
                push_line(&mut out, reply.html.clone());
                if reply.truncated {
                    push_line(
                        &mut err,
                        concat3(
                            "warning: HTML truncated (full size ",
                            size.as_str(),
                            " bytes). Pass `--max-bytes N` to widen.",
                        ),
                    );
                }
            }
            write_dialog_summaries(&mut err, reply.dialogs.as_slice());
            let rendered = Rendered { stdout: out, stderr: err };
            assert(rendered@.stdout =~= html_rendering(reply, to_file).stdout);
            assert(rendered@.stderr =~= html_rendering(reply, to_file).stderr);
            GetHtmlAction::Print(rendered)
        },
    }
}

/// `bsk get-html`: ask for the HTML; on reply, first save it when an
/// output file is given, then render.
pub fn dispatch(args: &GetHtmlArgs, format: Format, step: GetHtmlStep) -> (r: GetHtmlAction)
    ensures
        match step {
            GetHtmlStep::DaemonReady => r matches GetHtmlAction::Call(c) && c.id@ == "get-html"@
                && c.method == Method::ToolGetHtml && c.params.session_id@ == args.session@
                && c.params.tab_id == args.tab_id && c.params.ref_ == args.ref_
                && c.params.max_bytes == Some(byte_budget(args.max_bytes)) && c.timeout == IpcTimeout::Tool,
            GetHtmlStep::Replied(reply) => if args.out is Some {
                r == GetHtmlAction::Save(reply)
            } else {
                &&& format is Json ==> r == GetHtmlAction::PrintJson(reply)
                &&& format is Human ==> (r matches GetHtmlAction::Print(out) && out@
                    == html_rendering(reply, false))
            },
            GetHtmlStep::Saved(reply) => {
                &&& format is Json ==> r == GetHtmlAction::PrintJson(reply)
                &&& format is Human ==> (r matches GetHtmlAction::Print(out) && out@
                    == html_rendering(reply, true))
            },
        },
{
    match step {
        GetHtmlStep::DaemonReady => GetHtmlAction::Call(run(args)),
        GetHtmlStep::Replied(reply) => {
            if args.out.is_some() {
                GetHtmlAction::Save(reply)
            } else {
                render(reply, false, format)
            }
        },
        GetHtmlStep::Saved(reply) => render(reply, true, format),
    }
}


/// The request carries the budget the user asked for, whatever its
/// size; only without `--max-bytes` does it carry the protocol default
/// of 524288 bytes.
pub proof fn lemma_requested_budget_is_sent(asked: Option<u32>)
    ensures
        asked matches Some(n) ==> byte_budget(asked) == n,
        asked is None ==> byte_budget(asked) == 524288,
{
}

} // verus!
