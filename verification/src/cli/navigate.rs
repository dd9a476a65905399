//! `bsk navigate` + `bsk navigate back / forward` + `bsk reload`: the
//! short-duration grammar of `--timeout`, the request each command sends,
//! and the one-line-per-result human rendering.

use std::time::Duration;

use vstd::prelude::*;

use crate::cli::dialogs::{dialog_summaries, write_dialog_summaries};
use crate::cli::error::{CliError, CliErrorView};
use crate::cli::flow::{
    millis, push_line, texts, with_ipc_grace, Action, Format, IpcTimeout, Rendered, RenderedView,
    RpcCall, Step,
};
use crate::protocol::dialog::JavaScriptDialogInfo;
use crate::protocol::method::Method;
use crate::protocol::navigation::{
    NavigateBackParams, NavigateBackResult, NavigateForwardParams, NavigateForwardResult,
    NavigateParams, NavigateResult, ReloadParams, ReloadResult, WaitUntil,
};
use crate::text::{
    all_digits, chars_of, concat, concat3, same_text, decimal_text, is_digit, lemma_decimal_text_digits,
    lemma_parse_decimal_round_trip, lemma_trimmed_unchanged, parse_u64, parse_u64_text,
    signed_decimal, signed_decimal_text, trim_ws, trimmed,
};

verus! {

/// Splits a trimmed duration into its number part and the factor that
/// turns the number into milliseconds: suffix `ms` (x1), `s` (x1000),
/// `m` (x60000), or none (milliseconds).
pub open spec fn split_duration(t: Seq<char>) -> (Seq<char>, nat) {
    if t.len() >= 2 && t[t.len() - 2] == 'm' && t.last() == 's' {
        (t.take(t.len() - 2), 1)
    } else if t.len() >= 1 && t.last() == 's' {
        (t.drop_last(), 1000)
    } else if t.len() >= 1 && t.last() == 'm' {
        (t.drop_last(), 60000)
    } else {
        (t, 1)
    }
}

/// `n * factor`, saturating at `u64::MAX`.
pub open spec fn scaled_ms(n: u64, factor: nat) -> u64 {
    if n * factor > u64::MAX {
        u64::MAX
    } else {
        (n * factor) as u64
    }
}

/// The number of milliseconds a duration text denotes, or `None` when its
/// number part is not an unsigned integer. `t` is the trimmed text.
pub open spec fn duration_text_ms(t: Seq<char>) -> Option<u64> {
    let (num, factor) = split_duration(t);
    match parse_u64_text(trimmed(num)) {
        Some(n) => Some(scaled_ms(n, factor)),
        None => None,
    }
}

/// What `parse_timeout_ms` answers for `arg`: the positive number of
/// milliseconds that fits in a `u32`, or the error message.
pub open spec fn timeout_ms_result(arg: Seq<char>) -> Result<u32, Seq<char>> {
    let t = trimmed(arg);
    if t.len() == 0 {
        Err("empty timeout"@)
    } else {
        match duration_text_ms(t) {
            None => Err("invalid timeout '"@ + t + "': expected number"@),
            Some(ms) => if ms == 0 {
                Err("invalid timeout '"@ + t + "': must be greater than zero"@)
            } else if ms > u32::MAX {
                Err("timeout '"@ + t + "' too large for u32 ms"@)
            } else {
                Ok(ms as u32)
            },
        }
    }
}

/// A duration text split at its unit suffix: the number part and the
/// millisecond factor of the unit.
pub struct DurationParts<'a> {
    pub number: &'a str,
    pub factor: u64,
}

/// Splits the (trimmed) duration text `t` at its unit suffix.
pub fn split_duration_text<'a>(t: &'a str) -> (r: DurationParts<'a>)
    ensures
        (r.number@, r.factor as nat) == split_duration(t@),
{
    let cs = chars_of(t);
    let n = cs.len();
    if n >= 2 && cs[n - 2] == 'm' && cs[n - 1] == 's' {
        assert(t@.take(n - 2) =~= t@.subrange(0, n - 2));
        DurationParts { number: t.substring_char(0, n - 2), factor: 1 }
    } else if n >= 1 && cs[n - 1] == 's' {
        assert(t@.drop_last() =~= t@.subrange(0, n - 1));
        DurationParts { number: t.substring_char(0, n - 1), factor: 1000 }
    } else if n >= 1 && cs[n - 1] == 'm' {
        assert(t@.drop_last() =~= t@.subrange(0, n - 1));
        DurationParts { number: t.substring_char(0, n - 1), factor: 60000 }
    } else {
        assert(t@ =~= t@.subrange(0, n as int));
        DurationParts { number: t, factor: 1 }
    }
}

/// Milliseconds denoted by the trimmed duration text `t`, saturating at
/// `u64::MAX`; `None` when the number part is not an unsigned integer.
pub fn duration_ms_of(t: &str) -> (r: Option<u64>)
    ensures
        r == duration_text_ms(t@),
{
    let parts = split_duration_text(t);
    match parse_u64(trim_ws(parts.number)) {
        Some(n) => {
            let ms = match n.checked_mul(parts.factor) {
                Some(v) => v,
                None => u64::MAX,
            };
            Some(ms)
        },
        None => None,
    }
}

/// Parse a short duration string into milliseconds. Accepts a bare
/// integer (interpreted as milliseconds), or a value with one of the
/// suffixes `ms`, `s`, `m`. Zero and values past `u32::MAX` are refused.
pub fn parse_timeout_ms(arg: &str) -> (r: Result<u32, String>)
    ensures
        match r {
            Ok(v) => timeout_ms_result(arg@) == Ok::<u32, Seq<char>>(v) && v > 0,
            Err(e) => timeout_ms_result(arg@) == Err::<u32, Seq<char>>(e@),
        },
{
    let t = trim_ws(arg);
    if t.unicode_len() == 0 {
        return Err("empty timeout".to_owned());
    }
    match duration_ms_of(t) {
        None => Err(concat3("invalid timeout '", t, "': expected number")),
        Some(ms) => {
            if ms == 0 {
                Err(concat3("invalid timeout '", t, "': must be greater than zero"))
            } else if ms > 4294967295u64 {
                Err(concat3("timeout '", t, "' too large for u32 ms"))
            } else {
                Ok(ms as u32)
            }
        },
    }
}

/// Lifecycle phase as chosen on the command line.
#[derive(Debug, Clone, Copy, PartialEq, Eq)]
pub enum CliWaitUntil {
    Load,
    DomContentLoaded,
    NetworkIdle,
    Commit,
}

/// The protocol phase a command-line phase stands for.
pub open spec fn wait_until_of(v: CliWaitUntil) -> WaitUntil {
    match v {
        CliWaitUntil::Load => WaitUntil::Load,
        CliWaitUntil::DomContentLoaded => WaitUntil::DomContentLoaded,
        CliWaitUntil::NetworkIdle => WaitUntil::NetworkIdle,
        CliWaitUntil::Commit => WaitUntil::Commit,
    }
}

impl From<CliWaitUntil> for WaitUntil {
    fn from(v: CliWaitUntil) -> (r: WaitUntil) {
        match v {
            CliWaitUntil::Load => WaitUntil::Load,
            CliWaitUntil::DomContentLoaded => WaitUntil::DomContentLoaded,
            CliWaitUntil::NetworkIdle => WaitUntil::NetworkIdle,
            CliWaitUntil::Commit => WaitUntil::Commit,
        }
    }
}

impl vstd::std_specs::convert::FromSpecImpl<CliWaitUntil> for WaitUntil {
    open spec fn obeys_from_spec() -> bool {
        true
    }

    open spec fn from_spec(v: CliWaitUntil) -> WaitUntil {
        wait_until_of(v)
    }
}

/// `bsk navigate` with an optional history subcommand.
#[derive(Debug, Clone, PartialEq)]
pub struct NavigateCommand {
    pub command: Option<NavigateCmd>,
    pub args: NavigateArgs,
}

#[derive(Debug, Clone, PartialEq)]
pub enum NavigateCmd {
    /// Step back in history one entry.
    Back(NavigateHistoryArgs),
    /// Step forward in history one entry.
    Forward(NavigateHistoryArgs),
}

#[derive(Debug, Clone, PartialEq)]
pub struct NavigateArgs {
    /// Destination URL.
    pub url: Option<String>,
    /// Session id (must be active).
    pub session: Option<String>,
    /// Target tab. Defaults to the Agent Window's active tab.
    pub tab_id: Option<i64>,
    /// Lifecycle phase to wait for. Defaults to `load`.
    pub wait_until: CliWaitUntil,
    /// Hard timeout in milliseconds (default 30s).
    pub timeout: u32,
}

#[derive(Debug, Clone, PartialEq)]
pub struct NavigateHistoryArgs {
    pub session: String,
    pub tab_id: Option<i64>,
    pub wait_until: CliWaitUntil,
    /// Hard timeout in milliseconds (default 15s).
    pub timeout: u32,
}

#[derive(Debug, Clone, PartialEq)]
pub struct ReloadArgs {
    pub session: String,
    pub tab_id: Option<i64>,
    pub wait_until: CliWaitUntil,
    /// Hard timeout in milliseconds (default 15s).
    pub timeout: u32,
    /// Bypass the HTTP cache when reloading.
    pub hard: bool,
}

/// Which navigation command a `bsk navigate` invocation runs.
#[derive(Debug)]
pub enum NavigateRoute<'a> {
    Navigate(&'a NavigateArgs),
    Back(&'a NavigateHistoryArgs),
    Forward(&'a NavigateHistoryArgs),
}

/// A history subcommand runs that subcommand; without one the command
/// navigates to a URL.
pub fn dispatch_navigate_command<'a>(cmd: &'a NavigateCommand) -> (r: NavigateRoute<'a>)
    ensures
        match cmd.command {
            Some(NavigateCmd::Back(a)) => r == NavigateRoute::Back(&a),
            Some(NavigateCmd::Forward(a)) => r == NavigateRoute::Forward(&a),
            None => r == NavigateRoute::Navigate(&cmd.args),
        },
{
    match &cmd.command {
        Some(NavigateCmd::Back(a)) => NavigateRoute::Back(a),
        Some(NavigateCmd::Forward(a)) => NavigateRoute::Forward(a),
        None => NavigateRoute::Navigate(&cmd.args),
    }
}

/// Use the tool timeout but extend it by 15 seconds, so a long
/// navigation doesn't trip the IPC layer before the daemon's own timeout
/// fires.
pub fn navigate_ipc_timeout(timeout_ms: u32) -> (d: Duration)
    ensures
        d == millis(timeout_ms as nat + 15000),
{
    with_ipc_grace(timeout_ms as u64)
}

/// Whether the reported phase is the timeout marker.
pub open spec fn is_timeout(reached: Seq<char>) -> bool {
    reached == "timeout"@
}

/// Standard-error lines of a navigation result: the timeout warning (only
/// when the wait timed out and an error text came back), then the
/// dialog summaries.
pub open spec fn warning_and_dialogs(
    reached: Seq<char>,
    error_text: Option<String>,
    dialogs: Seq<JavaScriptDialogInfo>,
) -> Seq<Seq<char>> {
    (if is_timeout(reached) && error_text is Some {
        seq!["warning: "@ + error_text->0@]
    } else {
        Seq::empty()
    }) + dialog_summaries(dialogs)
}

fn warn_and_summarize(
    reached: &str,
    error_text: &Option<String>,
    dialogs: &[JavaScriptDialogInfo],
) -> (r: Vec<String>)
    ensures
        texts(r@) == warning_and_dialogs(reached@, *error_text, dialogs@),
{
    let mut err: Vec<String> = Vec::new();
    proof {
        reveal_strlit("timeout");
    }
    if same_text(reached, "timeout") {
        if let Some(text) = error_text {
            push_line(&mut err, concat("warning: ", text.as_str()));
        }
    }
    let ghost warned = texts(err@);
    write_dialog_summaries(&mut err, dialogs);
    assert(texts(err@) =~= warned + dialog_summaries(dialogs@));
    err
}

/// Human rendering of a navigation result.
pub open spec fn navigate_rendering(reply: NavigateResult) -> RenderedView {
    RenderedView {
        stdout: seq![
            "tab="@ + signed_decimal_text(reply.tab_id as int) + " reached="@ + reply.reached@,
        ] + (if reply.final_url is Some {
            seq!["url="@ + reply.final_url->0@]
        } else {
            Seq::empty()
        }),
        stderr: warning_and_dialogs(reply.reached@, reply.error_text, reply.dialogs@),
    }
}

/// Render a navigation result: the full payload as JSON, or one line per
/// fact for humans.
pub fn render_navigate(reply: NavigateResult, format: Format) -> (r: Action<
    NavigateParams,
    NavigateResult,
>)
    ensures
        format is Json ==> r == Action::<NavigateParams, NavigateResult>::PrintJson(reply),
        format is Human ==> (r matches Action::Print(out) && out@ == navigate_rendering(
            reply,
        )),
{
    match format {
        Format::Json => Action::PrintJson(reply),
        Format::Human => {
            let mut out: Vec<String> = Vec::new();
            let tab = signed_decimal(reply.tab_id);
            let head = concat3("tab=", tab.as_str(), " reached=");
            push_line(&mut out, concat(head.as_str(), reply.reached.as_str()));
            if let Some(final_url) = &reply.final_url {
                push_line(&mut out, concat("url=", final_url.as_str()));
            }
            let err = warn_and_summarize(
                reply.reached.as_str(),
                &reply.error_text,
                reply.dialogs.as_slice(),
            );
            let rendered = Rendered { stdout: out, stderr: err };
            assert(rendered@.stdout =~= navigate_rendering(reply).stdout);
            Action::Print(rendered)
        },
    }
}

/// `bsk navigate <url>`: once the daemon is up, check that a URL and a
/// session were given and ask for the navigation, with the IPC budget
/// stretched past the navigation timeout; on reply, render it.
pub fn dispatch_navigate(args: &NavigateArgs, format: Format, step: Step<NavigateResult>) -> (r:
    Action<NavigateParams, NavigateResult>)
    ensures
        match step {
            Step::DaemonReady => if args.url is None {
                r matches Action::Fail(e) && e@ == (CliErrorView {
                    code: None,
                    message: "navigate requires a url"@,
                })
            } else if args.session is None {
                r matches Action::Fail(e) && e@ == (CliErrorView {
                    code: None,
                    message: "navigate requires --session <session-id>"@,
                })
            } else {
                r matches Action::Call(c) && c.id@ == "navigate-1"@ && c.method
                    == Method::ToolNavigate && c.params.session_id@ == args.session->0@
                    && c.params.url@ == args.url->0@ && c.params.tab_id == args.tab_id
                    && c.params.wait_until == Some(wait_until_of(args.wait_until))
                    && c.params.timeout_ms == Some(args.timeout) && c.timeout == IpcTimeout::Custom(millis(
                    args.timeout as nat + 15000))
            },
            Step::Replied(reply) => {
                &&& format == Format::Json ==> r == Action::<
                    NavigateParams,
                    NavigateResult,
                >::PrintJson(reply)
                &&& format == Format::Human ==> (r matches Action::Print(out) && out@
                    == navigate_rendering(reply))
            },
        },
{
    match step {
        Step::DaemonReady => {
            let url = match &args.url {
                Some(u) => u.clone(),
                None => return Action::Fail(CliError::local("navigate requires a url")),
            };
            let session = match &args.session {
                Some(s) => s.clone(),
                None => return Action::Fail(
                    CliError::local("navigate requires --session <session-id>"),
                ),
            };
            let params = NavigateParams {
                session_id: session,
                url,
                tab_id: args.tab_id,
                wait_until: Some(args.wait_until.into()),
                timeout_ms: Some(args.timeout),
            };
            Action::Call(
                RpcCall {
                    id: "navigate-1",
                    method: Method::ToolNavigate,
                    params,
                    timeout: IpcTimeout::Custom(navigate_ipc_timeout(args.timeout)),
                },
            )
        },
        Step::Replied(reply) => render_navigate(reply, format),
    }
}

/// The common shape of back / forward / reload results, which the
/// history commands print.
#[derive(Debug, Clone, PartialEq)]
pub struct OwnedHistoryView {
    pub tab_id: i64,
    pub previous_url: Option<String>,
    pub final_url: Option<String>,
    pub reached: String,
    pub error_text: Option<String>,
    pub dialogs: Vec<JavaScriptDialogInfo>,
}

impl From<NavigateBackResult> for OwnedHistoryView {
    fn from(r: NavigateBackResult) -> (v: OwnedHistoryView) {
        OwnedHistoryView {
            tab_id: r.tab_id,
            previous_url: r.previous_url,
            final_url: r.final_url,
            reached: r.reached,
            error_text: r.error_text,
            dialogs: r.dialogs,
        }
    }
}

impl vstd::std_specs::convert::FromSpecImpl<NavigateBackResult> for OwnedHistoryView {
    open spec fn obeys_from_spec() -> bool {
        true
    }

    open spec fn from_spec(r: NavigateBackResult) -> OwnedHistoryView {
        back_history(r)
    }
}

/// The history view of a `NavigateBackResult`: the same fields.
pub open spec fn back_history(r: NavigateBackResult) -> OwnedHistoryView {
    OwnedHistoryView {
        tab_id: r.tab_id,
        previous_url: r.previous_url,
        final_url: r.final_url,
        reached: r.reached,
        error_text: r.error_text,
        dialogs: r.dialogs,
    }
}

impl From<NavigateForwardResult> for OwnedHistoryView {
    fn from(r: NavigateForwardResult) -> (v: OwnedHistoryView) {
        OwnedHistoryView {
            tab_id: r.tab_id,
            previous_url: r.previous_url,
            final_url: r.final_url,
            reached: r.reached,
            error_text: r.error_text,
            dialogs: r.dialogs,
        }
    }
}

impl vstd::std_specs::convert::FromSpecImpl<NavigateForwardResult> for OwnedHistoryView {
    open spec fn obeys_from_spec() -> bool {
        true
    }

    open spec fn from_spec(r: NavigateForwardResult) -> OwnedHistoryView {
        forward_history(r)
    }
}

/// The history view of a `NavigateForwardResult`: the same fields.
pub open spec fn forward_history(r: NavigateForwardResult) -> OwnedHistoryView {
    OwnedHistoryView {
        tab_id: r.tab_id,
        previous_url: r.previous_url,
        final_url: r.final_url,
        reached: r.reached,
        error_text: r.error_text,
        dialogs: r.dialogs,
    }
}

impl From<ReloadResult> for OwnedHistoryView {
    fn from(r: ReloadResult) -> (v: OwnedHistoryView) {
        OwnedHistoryView {
            tab_id: r.tab_id,
            previous_url: r.previous_url,
            final_url: r.final_url,
            reached: r.reached,
            error_text: r.error_text,
            dialogs: r.dialogs,
        }
    }
}

impl vstd::std_specs::convert::FromSpecImpl<ReloadResult> for OwnedHistoryView {
    open spec fn obeys_from_spec() -> bool {
        true
    }

    open spec fn from_spec(r: ReloadResult) -> OwnedHistoryView {
        reload_history(r)
    }
}

/// The history view of a `ReloadResult`: the same fields.
pub open spec fn reload_history(r: ReloadResult) -> OwnedHistoryView {
    OwnedHistoryView {
        tab_id: r.tab_id,
        previous_url: r.previous_url,
        final_url: r.final_url,
        reached: r.reached,
        error_text: r.error_text,
        dialogs: r.dialogs,
    }
}

/// Human rendering of a history-command result under `label`.
pub open spec fn history_rendering(view: OwnedHistoryView, label: Seq<char>) -> RenderedView {
    RenderedView {
        stdout: seq![
            label + ": tab="@ + signed_decimal_text(view.tab_id as int) + " reached="@
                + view.reached@,
        ] + (if view.previous_url is Some {
            seq!["previous_url="@ + view.previous_url->0@]
        } else {
            Seq::empty()
        }) + (if view.final_url is Some {
            seq!["final_url="@ + view.final_url->0@]
        } else {
            Seq::empty()
        }),
        stderr: warning_and_dialogs(view.reached@, view.error_text, view.dialogs@),
    }
}

/// Render a history-command result: the result as JSON, or one line per
/// fact prefixed with `label` for humans.
pub fn render_history<P>(view: OwnedHistoryView, label: &'static str, format: Format) -> (r:
    Action<P, OwnedHistoryView>)
    ensures
        format is Json ==> r == Action::<P, OwnedHistoryView>::PrintJson(view),
        format is Human ==> (r matches Action::Print(out) && out@ == history_rendering(
            view,
            label@,
        )),
{
    match format {
        Format::Json => Action::PrintJson(view),
        Format::Human => {
            let mut out: Vec<String> = Vec::new();
            let tab = signed_decimal(view.tab_id);
            let head = concat3(label, ": tab=", tab.as_str());
            let head = concat3(head.as_str(), " reached=", view.reached.as_str());
            push_line(&mut out, head);
            if let Some(p) = &view.previous_url {
                push_line(&mut out, concat("previous_url=", p.as_str()));
            }
            if let Some(f) = &view.final_url {
                push_line(&mut out, concat("final_url=", f.as_str()));
            }
            let err = warn_and_summarize(
                view.reached.as_str(),
                &view.error_text,
                view.dialogs.as_slice(),
            );
            let rendered = Rendered { stdout: out, stderr: err };
            assert(rendered@.stdout =~= history_rendering(view, label@).stdout);
            Action::Print(rendered)
        },
    }
}

/// The request of a history command once the daemon is up.
pub open spec fn history_call_ok<P>(
    c: RpcCall<P>,
    id: Seq<char>,
    method: Method,
    timeout: u32,
) -> bool {
    &&& c.id@ == id
    &&& c.method == method
    &&& c.timeout == IpcTimeout::Custom(millis(timeout as nat + 15000))
}

/// `bsk navigate back`: ask for one step back in history; on reply,
/// render it under the `navigate-back` label.
pub fn dispatch_navigate_back(
    args: &NavigateHistoryArgs,
    format: Format,
    step: Step<NavigateBackResult>,
) -> (r: Action<NavigateBackParams, OwnedHistoryView>)
    ensures
        match step {
            Step::DaemonReady => r matches Action::Call(c) && history_call_ok(
                c,
                "navigate-back-1"@,
                Method::ToolNavigateBack,
                args.timeout,
            ) && c.params.session_id@ == args.session@ && c.params.tab_id == args.tab_id
                && c.params.wait_until == Some(wait_until_of(args.wait_until))
                && c.params.timeout_ms == Some(args.timeout),
            Step::Replied(reply) => {
                &&& format is Json ==> r == Action::<
                    NavigateBackParams,
                    OwnedHistoryView,
                >::PrintJson(back_history(reply))
                &&& format is Human ==> (r matches Action::Print(out) && out@ == history_rendering(
                    back_history(reply),
                    "navigate-back"@,
                ))
            },
        },
{
    match step {
        Step::DaemonReady => {
            let params = NavigateBackParams {
                session_id: args.session.clone(),
                tab_id: args.tab_id,
                wait_until: Some(args.wait_until.into()),
                timeout_ms: Some(args.timeout),
            };
            Action::Call(
                RpcCall {
                    id: "navigate-back-1",
                    method: Method::ToolNavigateBack,
                    params,
                    timeout: IpcTimeout::Custom(navigate_ipc_timeout(args.timeout)),
                },
            )
        },
        Step::Replied(reply) => render_history(
            OwnedHistoryView::from(reply),
            "navigate-back",
            format,
        ),
    }
}

/// `bsk navigate forward`: ask for one step forward in history; on
/// reply, render it under the `navigate-forward` label.
pub fn dispatch_navigate_forward(
    args: &NavigateHistoryArgs,
    format: Format,
    step: Step<NavigateForwardResult>,
) -> (r: Action<NavigateForwardParams, OwnedHistoryView>)
    ensures
        match step {
            Step::DaemonReady => r matches Action::Call(c) && history_call_ok(
                c,
                "navigate-forward-1"@,
                Method::ToolNavigateForward,
                args.timeout,
            ) && c.params.session_id@ == args.session@ && c.params.tab_id == args.tab_id
                && c.params.wait_until == Some(wait_until_of(args.wait_until))
                && c.params.timeout_ms == Some(args.timeout),
            Step::Replied(reply) => {
                &&& format is Json ==> r == Action::<
                    NavigateForwardParams,
                    OwnedHistoryView,
                >::PrintJson(forward_history(reply))
                &&& format is Human ==> (r matches Action::Print(out) && out@ == history_rendering(
                    forward_history(reply),
                    "navigate-forward"@,
                ))
            },
        },
{
    match step {
        Step::DaemonReady => {
            let params = NavigateForwardParams {
                session_id: args.session.clone(),
                tab_id: args.tab_id,
                wait_until: Some(args.wait_until.into()),
                timeout_ms: Some(args.timeout),
            };
            Action::Call(
                RpcCall {
                    id: "navigate-forward-1",
                    method: Method::ToolNavigateForward,
                    params,
                    timeout: IpcTimeout::Custom(navigate_ipc_timeout(args.timeout)),
                },
            )
        },
        Step::Replied(reply) => render_history(
            OwnedHistoryView::from(reply),
            "navigate-forward",
            format,
        ),
    }
}

/// `bsk reload`: ask for a reload (bypassing the cache only when `--hard`
/// is given); on reply, render it under the `reload` label.
pub fn dispatch_reload(args: &ReloadArgs, format: Format, step: Step<ReloadResult>) -> (r: Action<
    ReloadParams,
    OwnedHistoryView,
>)
    ensures
        match step {
            Step::DaemonReady => r matches Action::Call(c) && history_call_ok(
                c,
                "reload-1"@,
                Method::ToolReload,
                args.timeout,
            ) && c.params.session_id@ == args.session@ && c.params.tab_id == args.tab_id
                && c.params.wait_until == Some(wait_until_of(args.wait_until))
                && c.params.timeout_ms == Some(args.timeout) && c.params.hard == (if args.hard {
                Some(true)
            } else {
                None
            }),
            Step::Replied(reply) => {
                &&& format is Json ==> r == Action::<
                    ReloadParams,
                    OwnedHistoryView,
                >::PrintJson(reload_history(reply))
                &&& format is Human ==> (r matches Action::Print(out) && out@ == history_rendering(
                    reload_history(reply),
                    "reload"@,
                ))
            },
        },
{
    match step {
        Step::DaemonReady => {
            let params = ReloadParams {
                session_id: args.session.clone(),
                tab_id: args.tab_id,
                wait_until: Some(args.wait_until.into()),
                timeout_ms: Some(args.timeout),
                hard: if args.hard {
                    Some(true)
                } else {
                    None
                },
            };
            Action::Call(
                RpcCall {
                    id: "reload-1",
                    method: Method::ToolReload,
                    params,
                    timeout: IpcTimeout::Custom(navigate_ipc_timeout(args.timeout)),
                },
            )
        },
        Step::Replied(reply) => render_history(OwnedHistoryView::from(reply), "reload", format),
    }
}

proof fn lemma_number_with_suffix(n: u64, suffix: Seq<char>)
    requires
        suffix.len() <= 2,
        forall|i: int| 0 <= i < suffix.len() ==> !#[trigger] is_digit(suffix[i]),
        suffix.len() > 0 ==> suffix.last() == 's' || suffix.last() == 'm',
    ensures
        trimmed(decimal_text(n as nat) + suffix) == decimal_text(n as nat) + suffix,
        trimmed(decimal_text(n as nat)) == decimal_text(n as nat),
{
    lemma_decimal_text_digits(n as nat);
    let d = decimal_text(n as nat);
    let t = d + suffix;
    assert(is_digit(d[0]));
    assert(is_digit(d.last()));
    assert(t[0] == d[0]);
    lemma_trimmed_unchanged(d);
    lemma_trimmed_unchanged(t);
}

/// The documented `--timeout` spellings: a bare integer or one with `ms`
/// is milliseconds, `s` is seconds and `m` is minutes; each is accepted
/// whenever the resulting number of milliseconds is positive and fits in
/// a `u32`.
pub proof fn lemma_timeout_units(n: u64)
    ensures
        0 < n <= u32::MAX ==> timeout_ms_result(decimal_text(n as nat)) == Ok::<u32, Seq<char>>(
            n as u32,
        ),
        0 < n <= u32::MAX ==> timeout_ms_result(decimal_text(n as nat) + "ms"@) == Ok::<
            u32,
            Seq<char>,
        >(n as u32),
        0 < n * 1000 <= u32::MAX ==> timeout_ms_result(decimal_text(n as nat) + "s"@) == Ok::<
            u32,
            Seq<char>,
        >((n * 1000) as u32),
        0 < n * 60000 <= u32::MAX ==> timeout_ms_result(decimal_text(n as nat) + "m"@) == Ok::<
            u32,
            Seq<char>,
        >((n * 60000) as u32),
{
    reveal_strlit("ms");
    reveal_strlit("s");
    reveal_strlit("m");
    let d = decimal_text(n as nat);
    lemma_decimal_text_digits(n as nat);
    lemma_parse_decimal_round_trip(n);
    assert(is_digit(d.last()));
    lemma_number_with_suffix(n, seq![]);
    assert(d + seq![] =~= d);
    lemma_number_with_suffix(n, "ms"@);
    assert((d + "ms"@).take((d + "ms"@).len() - 2) =~= d);
    lemma_number_with_suffix(n, "s"@);
    assert((d + "s"@).drop_last() =~= d);
    lemma_number_with_suffix(n, "m"@);
    assert((d + "m"@).drop_last() =~= d);
}


/// The history view of a back, forward or reload reply carries the
/// reply's own fields unchanged: the tab, both URLs each in its own
/// place, the phase reached, the error text and the dialogs.
pub proof fn lemma_history_views_keep_reply_fields(
    b: NavigateBackResult,
    f: NavigateForwardResult,
    r: ReloadResult,
)
    ensures
        back_history(b).tab_id == b.tab_id && back_history(b).previous_url == b.previous_url
            && back_history(b).final_url == b.final_url && back_history(b).reached == b.reached
            && back_history(b).error_text == b.error_text && back_history(b).dialogs == b.dialogs,
        forward_history(f).tab_id == f.tab_id && forward_history(f).previous_url == f.previous_url
            && forward_history(f).final_url == f.final_url && forward_history(f).reached
            == f.reached && forward_history(f).error_text == f.error_text
            && forward_history(f).dialogs == f.dialogs,
        reload_history(r).tab_id == r.tab_id && reload_history(r).previous_url == r.previous_url
            && reload_history(r).final_url == r.final_url && reload_history(r).reached == r.reached
            && reload_history(r).error_text == r.error_text && reload_history(r).dialogs
            == r.dialogs,
{
}

/// `navigate forward` prints the reply's previous URL on the
/// `previous_url=` line and its final URL on the `final_url=` line.
pub proof fn lemma_forward_prints_reply_urls(f: NavigateForwardResult, label: Seq<char>)
    requires
        f.previous_url is Some,
        f.final_url is Some,
    ensures
        history_rendering(forward_history(f), label).stdout[1] == "previous_url="@
            + f.previous_url->0@,
        history_rendering(forward_history(f), label).stdout[2] == "final_url="@ + f.final_url->0@,
{
}

} // verus!
