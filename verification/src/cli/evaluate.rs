//! `bsk evaluate <expression>` — run a JavaScript expression inside the
//! session's Agent Window.
//!
//! A throw inside the expression is in-band data: the command still
//! succeeds and reports the throw text on standard error.

use std::time::Duration;

use vstd::prelude::*;

use crate::cli::dialogs::{dialog_summaries, write_dialog_summaries};
use crate::cli::flow::{
    millis, push_line, texts, with_ipc_grace, Action, Format, IpcTimeout, Rendered, RenderedView,
    RpcCall, Step,
};
use crate::protocol::method::Method;
use crate::protocol::script::{EvaluateParams, EvaluateResult};
use crate::text::{concat, concat3, signed_decimal, signed_decimal_text};

verus! {

#[derive(Debug, Clone, PartialEq)]
pub struct EvaluateArgs {
    /// JavaScript expression to evaluate.
    pub expression: String,
    /// Session id (must be active).
    pub session: String,
    /// Target tab. Defaults to the Agent Window's active tab.
    pub tab_id: Option<i64>,
    /// Await the expression's resolved value when it returns a Promise.
    pub await_promise: bool,
    /// Ask CDP to serialise the result by value.
    pub return_by_value: bool,
    /// Hard timeout in milliseconds (default 30s).
    pub timeout: u32,
}

/// The tool timeout plus 15 seconds of IPC slack.
pub fn ipc_timeout(timeout_ms: u32) -> (d: Duration)
    ensures
        d == millis(timeout_ms as nat + 15000),
{
    with_ipc_grace(timeout_ms as u64)
}

/// Human rendering of an evaluation: the value's JSON text on standard
/// output (`null` when absent), or the throw on standard error; dialog
/// summaries follow on standard error.
pub open spec fn evaluate_rendering(reply: EvaluateResult) -> RenderedView {
    RenderedView {
        stdout: if reply.ok {
            seq![
                match reply.value {
                    Some(v) => v.json@,
                    None => "null"@,
                },
            ]
        } else {
            Seq::empty()
        },
        stderr: (if reply.ok {
            Seq::empty()
        } else {
            match reply.error {
                Some(e) => seq!["evaluate threw: "@ + e.text@] + (if e.line is Some && e.column is Some {
                    seq![
                        "  at line "@ + signed_decimal_text(e.line->0 as int) + ", column "@
                            + signed_decimal_text(e.column->0 as int),
                    ]
                } else {
                    Seq::empty()
                }),
                None => seq!["evaluate failed: ok=false with no error payload"@],
            }
        }) + dialog_summaries(reply.dialogs@),
    }
}

/// Render an evaluation as JSON, or as its value / throw for humans.
pub fn render(reply: EvaluateResult, format: Format) -> (r: Action<EvaluateParams, EvaluateResult>)
    ensures
        format is Json ==> r == Action::<EvaluateParams, EvaluateResult>::PrintJson(reply),
        format is Human ==> (r matches Action::Print(out) && out@ == evaluate_rendering(reply)),
{
    match format {
        Format::Json => Action::PrintJson(reply),
        Format::Human => {
            let mut out: Vec<String> = Vec::new();
            let mut err: Vec<String> = Vec::new();
            if reply.ok {
                match &reply.value {
                    Some(v) => push_line(&mut out, v.json.clone()),
                    None => push_line(&mut out, "null".to_owned()),
                }
            } else {
                match &reply.error {
                    Some(e) => {
                        push_line(&mut err, concat("evaluate threw: ", e.text.as_str()));
                        match (e.line, e.column) {
                            (Some(line), Some(column)) => {
                                let l = signed_decimal(line);
                                let c = signed_decimal(column);
                                let msg = concat3("  at line ", l.as_str(), ", column ");
                                push_line(&mut err, concat(msg.as_str(), c.as_str()));
                            },
                            _ => {},
                        }
                    },
                    None => push_line(
                        &mut err,
                        "evaluate failed: ok=false with no error payload".to_owned(),
                    ),
                }
            }
            let ghost before = texts(err@);
            write_dialog_summaries(&mut err, reply.dialogs.as_slice());
            let rendered = Rendered { stdout: out, stderr: err };
            assert(rendered@.stdout =~= evaluate_rendering(reply).stdout);
            assert(rendered@.stderr =~= evaluate_rendering(reply).stderr);
            Action::Print(rendered)
        },
    }
}

/// `bsk evaluate`: send the expression with its evaluation options, the
/// IPC budget stretched past the evaluation timeout; on reply, render it.
pub fn dispatch(args: &EvaluateArgs, format: Format, step: Step<EvaluateResult>) -> (r: Action<
    EvaluateParams,
    EvaluateResult,
>)
    ensures
        match step {
            Step::DaemonReady => r matches Action::Call(c) && c.id@ == "evaluate"@ && c.method
                == Method::ToolEvaluate && c.params.session_id@ == args.session@
                && c.params.expression@ == args.expression@ && c.params.tab_id == args.tab_id
                && c.params.await_promise == Some(args.await_promise) && c.params.return_by_value
                == Some(args.return_by_value) && c.params.timeout_ms == Some(args.timeout)
                && c.timeout == IpcTimeout::Custom(millis(args.timeout as nat + 15000)),
            Step::Replied(reply) => {
                &&& format is Json ==> r == Action::<EvaluateParams, EvaluateResult>::PrintJson(
                    reply,
                )
                &&& format is Human ==> (r matches Action::Print(out) && out@ == evaluate_rendering(
                    reply,
                ))
            },
        },
{
    match step {
        Step::DaemonReady => {
            let params = EvaluateParams {
                session_id: args.session.clone(),
                expression: args.expression.clone(),
                tab_id: args.tab_id,
                await_promise: Some(args.await_promise),
                return_by_value: Some(args.return_by_value),
                timeout_ms: Some(args.timeout),
            };
            Action::Call(
                RpcCall {
                    id: "evaluate",
                    method: Method::ToolEvaluate,
                    params,
                    timeout: IpcTimeout::Custom(ipc_timeout(args.timeout)),
                },
            )
        },
        Step::Replied(reply) => render(reply, format),
    }
}

} // verus!
