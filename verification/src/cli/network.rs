//! `bsk network` — read buffered page network responses / failures.

use vstd::prelude::*;

use crate::cli::flow::{push_line, texts, Action, Format, IpcTimeout, Rendered, RenderedView, RpcCall, Step};
use crate::protocol::method::Method;
use crate::protocol::network::{NetworkEntry, NetworkEntryKind, NetworkParams, NetworkResult};
use crate::text::{concat, concat3, decimal, decimal_text};

verus! {

#[derive(Debug, Clone, PartialEq)]
pub struct NetworkArgs {
    /// Session id (must be active).
    pub session: String,
    /// Target tab. Defaults to the Agent Window's active tab.
    pub tab_id: Option<i64>,
    /// Return entries with sequence greater than this cursor.
    pub since: Option<u64>,
    /// Maximum number of entries to return (at least 1).
    pub limit: Option<u32>,
    /// Maximum characters per URL / error text (at least 1).
    pub max_text_chars: Option<u32>,
}

pub open spec fn text_or(o: Option<String>, fallback: Seq<char>) -> Seq<char> {
    match o {
        Some(s) => s@,
        None => fallback,
    }
}

/// One human line per entry: `#SEQ FAILED METHOD URL - ERROR` for
/// failures, `#SEQ STATUS METHOD URL` for responses, with `?`,
/// `(unknown)` and `failed` standing in for missing parts.
pub open spec fn entry_line(e: NetworkEntry) -> Seq<char> {
    let method = text_or(e.method, "?"@);
    let url = text_or(e.url, "(unknown)"@);
    match e.kind {
        NetworkEntryKind::Failure => "#"@ + decimal_text(e.sequence as nat) + " FAILED "@ + method
            + " "@ + url + " - "@ + text_or(e.error_text, "failed"@),
        NetworkEntryKind::Response => "#"@ + decimal_text(e.sequence as nat) + " "@ + (match e.status {
            Some(s) => decimal_text(s as nat),
            None => "?"@,
        }) + " "@ + method + " "@ + url,
    }
}

fn str_or<'a>(o: &'a Option<String>, fallback: &'a str) -> (r: &'a str)
    ensures
        r@ == text_or(*o, fallback@),
{
    match o {
        Some(s) => s.as_str(),
        None => fallback,
    }
}

/// The human line of one network entry.
pub fn render_entry(entry: &NetworkEntry) -> (r: String)
    ensures
        r@ == entry_line(*entry),
{
    let method = str_or(&entry.method, "?");
    let url = str_or(&entry.url, "(unknown)");
    let seq = decimal(entry.sequence);
    match entry.kind {
        NetworkEntryKind::Failure => {
            let err = str_or(&entry.error_text, "failed");
            let line = concat3("#", seq.as_str(), " FAILED ");
            let line = concat3(line.as_str(), method, " ");
            let line = concat3(line.as_str(), url, " - ");
            concat(line.as_str(), err)
        },
        NetworkEntryKind::Response => {
            let status = match entry.status {
                Some(s) => decimal(s as u64),
                None => "?".to_owned(),
            };
            let line = concat3("#", seq.as_str(), " ");
            let line = concat3(line.as_str(), status.as_str(), " ");
            let line = concat3(line.as_str(), method, " ");
            concat(line.as_str(), url)
        },
    }
}

/// Human rendering of a network read.
pub open spec fn network_rendering(reply: NetworkResult) -> RenderedView {
    RenderedView {
        stdout: if reply.entries@.len() == 0 {
            seq!["(no network activity captured)"@]
        } else {
            reply.entries@.map_values(|e: NetworkEntry| entry_line(e))
        },
        stderr: if reply.truncated {
            seq![
                "warning: network output truncated (next_since="@ + decimal_text(
                    reply.next_since as nat,
                )
                    + "). Use --since / --limit / --max-text-chars to request a different slice."@,
            ]
        } else {
            Seq::empty()
        },
    }
}

/// Render a network read as JSON, or one line per entry (and a warning
/// when the extension truncated the output) for humans.
pub fn render(reply: NetworkResult, format: Format) -> (r: Action<NetworkParams, NetworkResult>)
    ensures
        format is Json ==> r == Action::<NetworkParams, NetworkResult>::PrintJson(reply),
        format is Human ==> (r matches Action::Print(out) && out@ == network_rendering(reply)),
{
    match format {
        Format::Json => Action::PrintJson(reply),
        Format::Human => {
            let mut out: Vec<String> = Vec::new();
            if reply.entries.len() == 0 {
                push_line(&mut out, "(no network activity captured)".to_owned());
            } else {
                let mut i: usize = 0;
                while i < reply.entries.len()
                    invariant
                        i <= reply.entries@.len(),
                        texts(out@) == reply.entries@.take(i as int).map_values(
                            |e: NetworkEntry| entry_line(e),
                        ),
                    decreases reply.entries@.len() - i,
                {
                    let line = render_entry(&reply.entries[i]);
                    push_line(&mut out, line);
                    proof {
                        assert(reply.entries@.take(i + 1).map_values(|e: NetworkEntry| entry_line(e))
                            =~= reply.entries@.take(i as int).map_values(
                            |e: NetworkEntry| entry_line(e),
                        ).push(entry_line(reply.entries@[i as int])));
                    }
                    i = i + 1;
                }
                assert(reply.entries@.take(reply.entries@.len() as int) =~= reply.entries@);
            }
            let mut err: Vec<String> = Vec::new();
            if reply.truncated {
                let n = decimal(reply.next_since);
                push_line(
                    &mut err,
                    concat3(
                        "warning: network output truncated (next_since=",
                        n.as_str(),
                        "). Use --since / --limit / --max-text-chars to request a different slice.",
                    ),
                );
            }
            let rendered = Rendered { stdout: out, stderr: err };
            assert(rendered@.stdout =~= network_rendering(reply).stdout);
            assert(rendered@.stderr =~= network_rendering(reply).stderr);
            Action::Print(rendered)
        },
    }
}

/// The request `bsk network` sends: the arguments as they are.
pub fn run(args: &NetworkArgs) -> (c: RpcCall<NetworkParams>)
    ensures
        c.id@ == "network"@,
        c.method == Method::ToolNetwork,
        c.params.session_id@ == args.session@,
        c.params.tab_id == args.tab_id,
        c.params.since == args.since,
        c.params.limit == args.limit,
        c.params.max_text_chars == args.max_text_chars,
        c.timeout == IpcTimeout::Tool,
{
    RpcCall {
        id: "network",
        method: Method::ToolNetwork,
        params: NetworkParams {
            session_id: args.session.clone(),
            tab_id: args.tab_id,
            since: args.since,
            limit: args.limit,
            max_text_chars: args.max_text_chars,
        },
        timeout: IpcTimeout::Tool,
    }
}

/// `bsk network`: ask for the buffered entries; on reply, render them.
pub fn dispatch(args: &NetworkArgs, format: Format, step: Step<NetworkResult>) -> (r: Action<
    NetworkParams,
    NetworkResult,
>)
    ensures
        match step {
            Step::DaemonReady => r matches Action::Call(c) && c.id@ == "network"@ && c.method
                == Method::ToolNetwork && c.params.session_id@ == args.session@ && c.params.tab_id
                == args.tab_id && c.params.since == args.since && c.params.limit == args.limit
                && c.params.max_text_chars == args.max_text_chars && c.timeout == IpcTimeout::Tool,
            Step::Replied(reply) => {
                &&& format is Json ==> r == Action::<NetworkParams, NetworkResult>::PrintJson(reply)
                &&& format is Human ==> (r matches Action::Print(out) && out@ == network_rendering(
                    reply,
                ))
            },
        },
{
    match step {
        Step::DaemonReady => Action::Call(run(args)),
        Step::Replied(reply) => render(reply, format),
    }
}

} // verus!
