//! `bsk wait-for-navigation` and `bsk wait-ms`: the two timing-helper
//! commands. `wait-for-navigation` hops through the extension;
//! `wait-ms` is answered by the daemon alone.

use std::time::Duration;

use vstd::prelude::*;

use crate::cli::dialogs::{dialog_summaries, write_dialog_summaries};
use crate::cli::flow::{
    millis, push_line, texts, with_ipc_grace, Action, Format, IpcTimeout, Rendered, RenderedView,
    RpcCall, Step,
};
use crate::cli::navigate::{
    duration_ms_of, duration_text_ms, timeout_ms_result, wait_until_of, warning_and_dialogs,
    CliWaitUntil,
};
use crate::protocol::method::Method;
use crate::protocol::waits::{
    reached_name, WaitForNavigationParams, WaitForNavigationResult, WaitMsParams, WaitMsResult,
};
use crate::text::{concat, concat3, decimal, decimal_text, signed_decimal, signed_decimal_text, trim_ws, trimmed};

verus! {

/// What `parse_duration_ms` answers for `arg`: the number of
/// milliseconds (saturating), or the error message.
pub open spec fn duration_ms_result(arg: Seq<char>) -> Result<u64, Seq<char>> {
    let t = trimmed(arg);
    if t.len() == 0 {
        Err("empty duration"@)
    } else {
        match duration_text_ms(t) {
            None => Err("invalid duration '"@ + t + "': expected non-negative integer"@),
            Some(ms) => Ok(ms),
        }
    }
}

/// Parse the same short-duration grammar as `--timeout` flags but
/// return a `u64` of milliseconds (no lower or upper bound; the daemon
/// enforces its own cap).
pub fn parse_duration_ms(arg: &str) -> (r: Result<u64, String>)
    ensures
        match r {
            Ok(v) => duration_ms_result(arg@) == Ok::<u64, Seq<char>>(v),
            Err(e) => duration_ms_result(arg@) == Err::<u64, Seq<char>>(e@),
        },
{
    let t = trim_ws(arg);
    if t.unicode_len() == 0 {
        return Err("empty duration".to_owned());
    }
    match duration_ms_of(t) {
        None => Err(concat3("invalid duration '", t, "': expected non-negative integer")),
        Some(ms) => Ok(ms),
    }
}

/// `--timeout` and the `wait-ms` duration read one grammar: whenever a
/// timeout parses, the duration parser reads the same number of
/// milliseconds from the same text, and a duration that is positive and
/// fits in a `u32` is accepted as a timeout with the same value.
pub proof fn lemma_timeout_and_duration_agree(arg: Seq<char>)
    ensures
        timeout_ms_result(arg) is Ok ==> duration_ms_result(arg) == Ok::<u64, Seq<char>>(
            timeout_ms_result(arg)->Ok_0 as u64,
        ),
        (duration_ms_result(arg) is Ok && 0 < duration_ms_result(arg)->Ok_0 <= u32::MAX)
            ==> timeout_ms_result(arg) == Ok::<u32, Seq<char>>(
            duration_ms_result(arg)->Ok_0 as u32,
        ),
{
}

/// Arguments of `bsk wait-for-navigation`.
#[derive(Debug, Clone, PartialEq)]
pub struct WaitForNavigationArgs {
    pub session: String,
    /// Target tab. Defaults to the Agent Window's active tab.
    pub tab_id: Option<i64>,
    /// Lifecycle phase to wait on. Defaults to `load`.
    pub wait_until: CliWaitUntil,
    /// Hard timeout in milliseconds (default 30s).
    pub timeout: u32,
}

/// Arguments of `bsk wait-ms`.
#[derive(Debug, Clone, PartialEq)]
pub struct WaitMsArgs {
    /// Duration to wait, in milliseconds.
    pub duration: u64,
}

/// The tool timeout plus 15 seconds of IPC slack.
pub fn ipc_timeout(timeout_ms: u32) -> (d: Duration)
    ensures
        d == millis(timeout_ms as nat + 15000),
{
    with_ipc_grace(timeout_ms as u64)
}

/// The request `bsk wait-for-navigation` sends.
pub fn call_wait_for_navigation(params: WaitForNavigationParams, timeout_ms: u32) -> (c: RpcCall<
    WaitForNavigationParams,
>)
    ensures
        c.id@ == "wait-nav"@,
        c.method == Method::ToolWaitForNavigation,
        c.params == params,
        c.timeout == IpcTimeout::Custom(millis(timeout_ms as nat + 15000)),
{
    RpcCall {
        id: "wait-nav",
        method: Method::ToolWaitForNavigation,
        params,
        timeout: IpcTimeout::Custom(ipc_timeout(timeout_ms)),
    }
}

/// Human rendering of a wait-for-navigation result.
pub open spec fn wait_for_navigation_rendering(reply: WaitForNavigationResult) -> RenderedView {
    RenderedView {
        stdout: seq![
            "tab="@ + signed_decimal_text(reply.tab_id as int) + " reached="@ + reached_name(
                reply.reached,
            ),
        ],
        stderr: warning_and_dialogs(reached_name(reply.reached), reply.error_text, reply.dialogs@),
    }
}

/// Render a wait-for-navigation result as JSON, or as the reached phase
/// (plus a warning on timeout and dialog summaries) for humans.
pub fn render_wait_for_navigation(reply: WaitForNavigationResult, format: Format) -> (r: Action<
    WaitForNavigationParams,
    WaitForNavigationResult,
>)
    ensures
        format is Json ==> r == Action::<
            WaitForNavigationParams,
            WaitForNavigationResult,
        >::PrintJson(reply),
        format is Human ==> (r matches Action::Print(out) && out@
            == wait_for_navigation_rendering(reply)),
{
    match format {
        Format::Json => Action::PrintJson(reply),
        Format::Human => {
            let mut out: Vec<String> = Vec::new();
            let tab = signed_decimal(reply.tab_id);
            let head = concat3("tab=", tab.as_str(), " reached=");
            push_line(&mut out, concat(head.as_str(), reply.reached.as_str()));
            let mut err: Vec<String> = Vec::new();
            proof {
                reveal_strlit("timeout");
                reveal_strlit("load");
                reveal_strlit("domcontentloaded");
                reveal_strlit("networkidle");
                reveal_strlit("commit");
            }
            match reply.reached {
                crate::protocol::waits::WaitForNavigationReached::Timeout => {
                    if let Some(text) = &reply.error_text {
                        push_line(&mut err, concat("warning: ", text.as_str()));
                    }
                },
                _ => {},
            }
            let ghost warned = texts(err@);
            write_dialog_summaries(&mut err, reply.dialogs.as_slice());
            let rendered = Rendered { stdout: out, stderr: err };
            assert(rendered@.stdout =~= wait_for_navigation_rendering(reply).stdout);
            assert(rendered@.stderr =~= wait_for_navigation_rendering(reply).stderr);
            Action::Print(rendered)
        },
    }
}

/// `bsk wait-for-navigation`: ask the extension to wait for the chosen
/// lifecycle phase, with the IPC budget stretched past the wait; on
/// reply, render it.
pub fn dispatch_wait_for_navigation(
    args: &WaitForNavigationArgs,
    format: Format,
    step: Step<WaitForNavigationResult>,
) -> (r: Action<WaitForNavigationParams, WaitForNavigationResult>)
    ensures
        match step {
            Step::DaemonReady => r matches Action::Call(c) && c.id@ == "wait-nav"@ && c.method
                == Method::ToolWaitForNavigation && c.params.session_id@ == args.session@
                && c.params.tab_id == args.tab_id && c.params.wait_until == Some(
                wait_until_of(args.wait_until),
            ) && c.params.timeout_ms == Some(args.timeout) && c.timeout == IpcTimeout::Custom(millis(
                args.timeout as nat + 15000)),
            Step::Replied(reply) => {
                &&& format is Json ==> r == Action::<
                    WaitForNavigationParams,
                    WaitForNavigationResult,
                >::PrintJson(reply)
                &&& format is Human ==> (r matches Action::Print(out) && out@
                    == wait_for_navigation_rendering(reply))
            },
        },
{
    match step {
        Step::DaemonReady => {
            let params = WaitForNavigationParams {
                session_id: args.session.clone(),
                tab_id: args.tab_id,
                wait_until: Some(args.wait_until.into()),
                timeout_ms: Some(args.timeout),
            };
            Action::Call(call_wait_for_navigation(params, args.timeout))
        },
        Step::Replied(reply) => render_wait_for_navigation(reply, format),
    }
}

/// The request `bsk wait-ms` sends: the IPC budget is the requested
/// duration plus 15 seconds of slack, so the client doesn't give up
/// before the daemon's sleep resolves.
pub fn call_wait_ms(params: WaitMsParams, duration_ms: u64) -> (c: RpcCall<WaitMsParams>)
    ensures
        c.id@ == "wait-ms"@,
        c.method == Method::ToolWaitMs,
        c.params == params,
        c.timeout == IpcTimeout::Custom(millis(duration_ms as nat + 15000)),
{
    RpcCall { id: "wait-ms", method: Method::ToolWaitMs, params, timeout: IpcTimeout::Custom(with_ipc_grace(duration_ms)) }
}

/// Human rendering of a wait-ms result.
pub open spec fn wait_ms_rendering(reply: WaitMsResult) -> RenderedView {
    RenderedView {
        stdout: seq!["waited_ms="@ + decimal_text(reply.waited_ms as nat)],
        stderr: Seq::empty(),
    }
}

/// Render a wait-ms result as JSON, or as `waited_ms=N` for humans.
pub fn render_wait_ms(reply: WaitMsResult, format: Format) -> (r: Action<WaitMsParams, WaitMsResult>)
    ensures
        format is Json ==> r == Action::<WaitMsParams, WaitMsResult>::PrintJson(reply),
        format is Human ==> (r matches Action::Print(out) && out@ == wait_ms_rendering(reply)),
{
    match format {
        Format::Json => Action::PrintJson(reply),
        Format::Human => {
            let mut out: Vec<String> = Vec::new();
            let n = decimal(reply.waited_ms);
            push_line(&mut out, concat("waited_ms=", n.as_str()));
            let rendered = Rendered { stdout: out, stderr: Vec::new() };
            assert(rendered@.stdout =~= wait_ms_rendering(reply).stdout);
            assert(rendered@.stderr =~= wait_ms_rendering(reply).stderr);
            Action::Print(rendered)
        },
    }
}

/// `bsk wait-ms`: ask the daemon to sleep for the duration; on reply,
/// render it.
pub fn dispatch_wait_ms(args: &WaitMsArgs, format: Format, step: Step<WaitMsResult>) -> (r: Action<
    WaitMsParams,
    WaitMsResult,
>)
    ensures
        match step {
            Step::DaemonReady => r matches Action::Call(c) && c.id@ == "wait-ms"@ && c.method
                == Method::ToolWaitMs && c.params.duration_ms == args.duration && c.timeout
                == IpcTimeout::Custom(millis(args.duration as nat + 15000)),
            Step::Replied(reply) => {
                &&& format is Json ==> r == Action::<WaitMsParams, WaitMsResult>::PrintJson(reply)
                &&& format is Human ==> (r matches Action::Print(out) && out@ == wait_ms_rendering(
                    reply,
                ))
            },
        },
{
    match step {
        Step::DaemonReady => {
            let params = WaitMsParams { duration_ms: args.duration };
            Action::Call(call_wait_ms(params, args.duration))
        },
        Step::Replied(reply) => render_wait_ms(reply, format),
    }
}

} // verus!
