//! `bsk window …` subcommands — Agent Window management.

use vstd::prelude::*;

use crate::cli::flow::{push_line, Action, Format, IpcTimeout, Rendered, RenderedView, RpcCall, Step};
use crate::protocol::method::Method;
use crate::protocol::window::{WindowResizeParams, WindowResizeResult};
use crate::text::{concat, concat3, debug_quote_text, debug_quoted, decimal, decimal_text, parse_u32, parse_u32_text, signed_decimal, signed_decimal_text};

verus! {

#[derive(Debug, Clone, PartialEq)]
pub struct WindowCmd {
    pub sub: WindowSub,
}

#[derive(Debug, Clone, PartialEq)]
pub enum WindowSub {
    /// Resize the session's Agent Window.
    Resize(WindowResizeArgs),
}

#[derive(Debug, Clone, PartialEq)]
pub struct WindowResizeArgs {
    /// Session id (must be active).
    pub session: String,
    /// New Agent Window outer width in CSS pixels (100..=7680).
    pub width: u32,
    /// New Agent Window outer height in CSS pixels (100..=7680).
    pub height: u32,
}

/// What `window_size` answers for `s`: a dimension in `100..=7680`, or
/// the error message.
pub open spec fn window_size_result(s: Seq<char>) -> Result<u32, Seq<char>> {
    match parse_u32_text(s) {
        None => Err(
            "invalid window dimension "@ + debug_quote_text(s) + ": expected a positive integer"@,
        ),
        Some(v) => if 100 <= v <= 7680 {
            Ok(v)
        } else {
            Err("window dimension "@ + decimal_text(v as nat) + " out of range (100..=7680)"@)
        },
    }
}

/// Parse a `--width` / `--height` Agent Window dimension (CSS pixels).
pub fn window_size(s: &str) -> (r: Result<u32, String>)
    ensures
        match r {
            Ok(v) => window_size_result(s@) == Ok::<u32, Seq<char>>(v),
            Err(e) => window_size_result(s@) == Err::<u32, Seq<char>>(e@),
        },
{
    match parse_u32(s) {
        None => {
            let quoted = debug_quoted(s);
            Err(concat3("invalid window dimension ", quoted.as_str(), ": expected a positive integer"))
        },
        Some(value) => {
            if 100 <= value && value <= 7680 {
                Ok(value)
            } else {
                let digits = decimal(value as u64);
                Err(concat3("window dimension ", digits.as_str(), " out of range (100..=7680)"))
            }
        },
    }
}

/// Human rendering of a resize result.
pub open spec fn resize_rendering(reply: WindowResizeResult) -> RenderedView {
    RenderedView {
        stdout: seq![
            "resized window_id="@ + signed_decimal_text(reply.window_id as int) + " to "@
                + decimal_text(reply.width as nat) + "x"@ + decimal_text(reply.height as nat),
        ],
        stderr: Seq::empty(),
    }
}

/// Render a resize result as JSON, or as one `resized … to WxH` line.
pub fn run_resize(reply: WindowResizeResult, format: Format) -> (r: Action<
    WindowResizeParams,
    WindowResizeResult,
>)
    ensures
        format is Json ==> r == Action::<WindowResizeParams, WindowResizeResult>::PrintJson(reply),
        format is Human ==> (r matches Action::Print(out) && out@ == resize_rendering(reply)),
{
    match format {
        Format::Json => Action::PrintJson(reply),
        Format::Human => {
            let id = signed_decimal(reply.window_id);
            let w = decimal(reply.width as u64);
            let h = decimal(reply.height as u64);
            let line = concat3("resized window_id=", id.as_str(), " to ");
            let line = concat3(line.as_str(), w.as_str(), "x");
            let line = concat(line.as_str(), h.as_str());
            let mut out: Vec<String> = Vec::new();
            push_line(&mut out, line);
            let rendered = Rendered { stdout: out, stderr: Vec::new() };
            assert(rendered@.stdout =~= resize_rendering(reply).stdout);
            assert(rendered@.stderr =~= resize_rendering(reply).stderr);
            Action::Print(rendered)
        },
    }
}

/// `bsk window resize`: ask for the new outer size with the standard
/// tool budget; on reply, render it.
pub fn dispatch(cmd: &WindowCmd, format: Format, step: Step<WindowResizeResult>) -> (r: Action<
    WindowResizeParams,
    WindowResizeResult,
>)
    ensures
        match step {
            Step::DaemonReady => match cmd.sub {
                WindowSub::Resize(a) => r matches Action::Call(c) && c.id@ == "window-resize-1"@
                    && c.method == Method::ToolWindowResize && c.params.session_id@ == a.session@
                    && c.params.width == a.width && c.params.height == a.height && c.timeout
                    == IpcTimeout::Tool,
            },
            Step::Replied(reply) => {
                &&& format is Json ==> r == Action::<
                    WindowResizeParams,
                    WindowResizeResult,
                >::PrintJson(reply)
                &&& format is Human ==> (r matches Action::Print(out) && out@ == resize_rendering(
                    reply,
                ))
            },
        },
{
    match step {
        Step::DaemonReady => match &cmd.sub {
            WindowSub::Resize(a) => Action::Call(
                RpcCall {
                    id: "window-resize-1",
                    method: Method::ToolWindowResize,
                    params: WindowResizeParams {
                        session_id: a.session.clone(),
                        width: a.width,
                        height: a.height,
                    },
                    timeout: IpcTimeout::Tool,
                },
            ),
        },
        Step::Replied(reply) => run_resize(reply, format),
    }
}

} // verus!
