//! How a command runs: it is a function from what has happened so far
//! (the daemon is up; the daemon replied) to what should happen next
//! (send a request; print; fail). The caller performs each action and
//! feeds back the next event, so every decision is made here while all
//! input and output stays with the caller.

use std::time::Duration;

use vstd::prelude::*;

use crate::cli::error::CliError;
use crate::protocol::method::Method;

verus! {

/// Output format selected on the command line.
#[derive(Debug, Clone, Copy, PartialEq, Eq)]
pub enum Format {
    Json,
    Human,
}

/// One request to the daemon.
#[derive(Debug)]
pub struct RpcCall<P> {
    /// RPC id (or id prefix) sent on the wire.
    pub id: &'static str,
    pub method: Method,
    pub params: P,
    /// How long the IPC layer waits for the reply.
    pub timeout: IpcTimeout,
}

/// The IPC layer's budget for one request.
#[derive(Debug, Clone, Copy, PartialEq, Eq)]
pub enum IpcTimeout {
    /// The standard budget of tool calls.
    Tool,
    /// A budget of its own.
    Custom(Duration),
}

/// Lines to print, one `println!` each: to standard output and to
/// standard error.
#[derive(Debug, Clone, PartialEq)]
pub struct Rendered {
    pub stdout: Vec<String>,
    pub stderr: Vec<String>,
}

/// The characters of each string, in order.
pub open spec fn texts(v: Seq<String>) -> Seq<Seq<char>> {
    v.map_values(|s: String| s@)
}

/// `Rendered` as the two sequences of printed lines.
pub struct RenderedView {
    pub stdout: Seq<Seq<char>>,
    pub stderr: Seq<Seq<char>>,
}

impl View for Rendered {
    type V = RenderedView;

    open spec fn view(&self) -> RenderedView {
        RenderedView { stdout: texts(self.stdout@), stderr: texts(self.stderr@) }
    }
}

/// What has happened since the command started.
#[derive(Debug)]
pub enum Step<R> {
    /// The daemon is running and reachable.
    DaemonReady,
    /// The daemon answered the request with `R`.
    Replied(R),
}

/// What the command wants done next.
#[derive(Debug)]
pub enum Action<P, J> {
    /// Send this request and report the reply.
    Call(RpcCall<P>),
    /// Print this payload as pretty JSON on standard output; done.
    PrintJson(J),
    /// Print these lines; done.
    Print(Rendered),
    /// Stop with this error.
    Fail(CliError),
}

/// The span of `secs` seconds plus `nanos` nanoseconds, as
/// `Duration::new(secs, nanos)` builds it.
pub uninterp spec fn duration_of(secs: u64, nanos: u32) -> Duration;

/// The span of `ms` milliseconds.
pub open spec fn millis(ms: nat) -> Duration {
    duration_of((ms / 1000) as u64, ((ms % 1000) * 1_000_000) as u32)
}

/// Calls `Duration::new`. The contract names the result by its two
/// arguments; `Duration`'s own arithmetic is not restated.
#[verifier::external_body]
fn duration_new(secs: u64, nanos: u32) -> (d: Duration)
    requires
        nanos < 1_000_000_000,
    ensures
        d == duration_of(secs, nanos),
{
    Duration::new(secs, nanos)
}

/// `ms` milliseconds plus 15 seconds of slack, the budget the IPC layer
/// gives a request whose own deadline is `ms`.
pub fn with_ipc_grace(ms: u64) -> (d: Duration)
    ensures
        d == millis(ms as nat + 15000),
{
    let secs = ms / 1000 + 15;
    let nanos = ((ms % 1000) * 1_000_000) as u32;
    duration_new(secs, nanos)
}

/// Appends `line` to `lines`.
pub fn push_line(lines: &mut Vec<String>, line: String)
    ensures
        texts(final(lines)@) == texts(old(lines)@).push(line@),
{
    lines.push(line);
    proof {
        assert(texts(lines@) =~= texts(old(lines)@).push(line@));
    }
}

} // verus!
