//! `bsk browsers` — list connected extension clients as a table.

use std::time::Duration;

use vstd::prelude::*;
use vstd::utf8::encode_utf8;

use crate::cli::flow::{push_line, texts, Action, Format, IpcTimeout, Rendered, RenderedView, RpcCall, Step};
use crate::protocol::method::Method;
use crate::protocol::system::{BrowserListParams, BrowserStatusEntry};
use crate::text::{concat, concat3, decimal, decimal_text};

verus! {

/// The daemon's answer to `browser.list`.
#[derive(Debug, Clone, PartialEq)]
pub struct ListReply {
    pub browsers: Vec<BrowserStatusEntry>,
}

/// How long to wait for a browser to connect: what the daemon may wait,
/// and the IPC budget for the whole query.
#[derive(Debug, Clone, Copy, PartialEq, Eq)]
pub struct BrowserListQuery {
    pub wait_for_browser_ms: u64,
    pub timeout: Duration,
}

/// Column headers of the browser table.
pub open spec fn headers() -> Seq<Seq<char>> {
    seq!["INSTANCE"@, "BROWSER"@, "EXT"@, "LABEL"@, "SESSIONS"@]
}

/// The five cells of one browser's row: instance, `name version`,
/// extension version, label (`-` when empty), session count.
pub open spec fn row_cells(b: BrowserStatusEntry) -> Seq<Seq<char>> {
    seq![
        b.instance_id@,
        b.browser_name@ + " "@ + b.browser_version@,
        b.extension_version@,
        if b.label@.len() == 0 {
            "-"@
        } else {
            b.label@
        },
        decimal_text(b.session_count as nat),
    ]
}

/// Width of a cell as `str::len` measures it: its UTF-8 byte count.
pub open spec fn byte_width(cell: Seq<char>) -> nat {
    (encode_utf8(cell).len() as usize) as nat
}

/// The widest cell of column `i` over `rows`, and at least `floor`.
pub open spec fn column_width(rows: Seq<Seq<Seq<char>>>, i: int, floor: nat) -> nat
    decreases rows.len(),
{
    if rows.len() == 0 {
        floor
    } else {
        let rest = column_width(rows.drop_last(), i, floor);
        let w = byte_width(rows.last()[i]);
        if w > rest {
            w
        } else {
            rest
        }
    }
}

/// `cell` padded with spaces on the right to `width` characters, as
/// `{:<width$}` formats it (cells already that long are left as they are).
pub open spec fn padded(cell: Seq<char>, width: nat) -> Seq<char> {
    if cell.len() < width {
        cell + Seq::new((width - cell.len()) as nat, |k: int| ' ')
    } else {
        cell
    }
}

/// One table line: the first four cells padded to their column widths,
/// two spaces between cells, the last cell as it is.
pub open spec fn table_line(cells: Seq<Seq<char>>, widths: Seq<nat>) -> Seq<char> {
    padded(cells[0], widths[0]) + "  "@ + padded(cells[1], widths[1]) + "  "@ + padded(
        cells[2],
        widths[2],
    ) + "  "@ + padded(cells[3], widths[3]) + "  "@ + cells[4]
}

/// Column widths: for each column the widest of its header and cells.
pub open spec fn table_widths(rows: Seq<Seq<Seq<char>>>) -> Seq<nat> {
    Seq::new(5, |i: int| column_width(rows, i, byte_width(headers()[i])))
}

/// Human rendering of the browser list: a placeholder line when no
/// browser is connected, otherwise the header line and one line per
/// browser, columns padded to a common width.
pub open spec fn browsers_rendering(browsers: Seq<BrowserStatusEntry>) -> RenderedView {
    let rows = browsers.map_values(|b: BrowserStatusEntry| row_cells(b));
    RenderedView {
        stdout: if browsers.len() == 0 {
            seq!["(no browsers connected)"@]
        } else {
            seq![table_line(headers(), table_widths(rows))] + rows.map_values(
                |cells: Seq<Seq<char>>| table_line(cells, table_widths(rows)),
            )
        },
        stderr: Seq::empty(),
    }
}

fn header(i: usize) -> (r: &'static str)
    requires
        i < 5,
    ensures
        r@ == headers()[i as int],
{
    if i == 0 {
        "INSTANCE"
    } else if i == 1 {
        "BROWSER"
    } else if i == 2 {
        "EXT"
    } else if i == 3 {
        "LABEL"
    } else {
        "SESSIONS"
    }
}

fn cells_of(b: &BrowserStatusEntry) -> (r: Vec<String>)
    ensures
        texts(r@) == row_cells(*b),
        r@.len() == 5,
{
    let mut r: Vec<String> = Vec::new();
    push_line(&mut r, b.instance_id.clone());
    push_line(&mut r, concat3(b.browser_name.as_str(), " ", b.browser_version.as_str()));
    push_line(&mut r, b.extension_version.clone());
    if b.label.as_str().unicode_len() == 0 {
        push_line(&mut r, "-".to_owned());
    } else {
        push_line(&mut r, b.label.clone());
    }
    push_line(&mut r, decimal(b.session_count));
    assert(texts(r@) =~= row_cells(*b));
    r
}

/// `cell` padded on the right with spaces to `width` characters.
fn pad(cell: &str, width: usize) -> (r: String)
    ensures
        r@ == padded(cell@, width as nat),
{
    proof {
        reveal_strlit(" ");
    }
    let mut r = cell.to_owned();
    let n = cell.unicode_len();
    let mut k = n;
    while k < width
        invariant
            n == cell@.len(),
            n <= k <= width || (n > width && k == n),
            r@ == cell@ + Seq::new((k - n) as nat, |j: int| ' '),
        decreases width - k,
    {
        r.append(" ");
        proof {
            reveal_strlit(" ");
        }
        k = k + 1;
        assert(r@ =~= cell@ + Seq::new((k - n) as nat, |j: int| ' '));
    }
    assert(n >= width ==> r@ =~= cell@);
    r
}

fn line_of(cells: &Vec<String>, widths: &Vec<usize>) -> (r: String)
    requires
        cells@.len() == 5,
        widths@.len() == 5,
    ensures
        r@ == table_line(texts(cells@), widths@.map_values(|w: usize| w as nat)),
{
    let mut r = pad(cells[0].as_str(), widths[0]);
    r.append("  ");
    r.append(pad(cells[1].as_str(), widths[1]).as_str());
    r.append("  ");
    r.append(pad(cells[2].as_str(), widths[2]).as_str());
    r.append("  ");
    r.append(pad(cells[3].as_str(), widths[3]).as_str());
    r.append("  ");
    r.append(cells[4].as_str());
    r
}

/// The widest cell of column `i` in `rows`, and at least `floor`.
fn widest(rows: &Vec<Vec<String>>, i: usize, floor: usize, Ghost(spec_rows): Ghost<
    Seq<Seq<Seq<char>>>,
>) -> (w: usize)
    requires
        i < 5,
        spec_rows.len() == rows@.len(),
        forall|k: int| 0 <= k < rows@.len() ==> #[trigger] texts(rows@[k]@) == spec_rows[k],
        forall|k: int| 0 <= k < rows@.len() ==> (#[trigger] rows@[k])@.len() == 5,
    ensures
        w as nat == column_width(spec_rows, i as int, floor as nat),
{
    let mut w = floor;
    let mut k: usize = 0;
    while k < rows.len()
        invariant
            i < 5,
            k <= rows@.len(),
            spec_rows.len() == rows@.len(),
            forall|k: int| 0 <= k < rows@.len() ==> #[trigger] texts(rows@[k]@) == spec_rows[k],
            forall|k: int| 0 <= k < rows@.len() ==> (#[trigger] rows@[k])@.len() == 5,
            w as nat == column_width(spec_rows.take(k as int), i as int, floor as nat),
        decreases rows@.len() - k,
    {
        let cell = rows[k][i].as_str();
        let l = cell.len();
        proof {
            assert(texts(rows@[k as int]@)[i as int] == rows@[k as int]@[i as int]@);
            let next = spec_rows.take(k + 1);
            assert(next.drop_last() =~= spec_rows.take(k as int));
            assert(next.last() == spec_rows[k as int]);
        }
        if l > w {
            w = l;
        }
        k = k + 1;
    }
    assert(spec_rows.take(rows@.len() as int) =~= spec_rows);
    w
}

/// The table lines of `browsers` (header first), or the placeholder when
/// there is none.
pub fn browser_table(browsers: &Vec<BrowserStatusEntry>) -> (r: Vec<String>)
    ensures
        texts(r@) == browsers_rendering(browsers@).stdout,
{
    let mut out: Vec<String> = Vec::new();
    if browsers.len() == 0 {
        push_line(&mut out, "(no browsers connected)".to_owned());
        assert(texts(out@) =~= browsers_rendering(browsers@).stdout);
        return out;
    }
    let ghost spec_rows = browsers@.map_values(|b: BrowserStatusEntry| row_cells(b));
    let mut rows: Vec<Vec<String>> = Vec::new();
    let mut k: usize = 0;
    while k < browsers.len()
        invariant
            k <= browsers@.len(),
            rows@.len() == k,
            spec_rows == browsers@.map_values(|b: BrowserStatusEntry| row_cells(b)),
            forall|j: int| 0 <= j < k ==> #[trigger] texts(rows@[j]@) == spec_rows[j],
            forall|j: int| 0 <= j < k ==> (#[trigger] rows@[j])@.len() == 5,
        decreases browsers@.len() - k,
    {
        let cells = cells_of(&browsers[k]);
        rows.push(cells);
        k = k + 1;
    }
    let mut widths: Vec<usize> = Vec::new();
    let mut heads: Vec<String> = Vec::new();
    let mut i: usize = 0;
    while i < 5
        invariant
            i <= 5,
            widths@.len() == i,
            rows@.len() == browsers@.len(),
            spec_rows == browsers@.map_values(|b: BrowserStatusEntry| row_cells(b)),
            forall|j: int| 0 <= j < rows@.len() ==> #[trigger] texts(rows@[j]@) == spec_rows[j],
            forall|j: int| 0 <= j < rows@.len() ==> (#[trigger] rows@[j])@.len() == 5,
            forall|j: int| 0 <= j < i ==> widths@[j] as nat == #[trigger] table_widths(
                spec_rows,
            )[j],
            texts(heads@) == headers().take(i as int),
        decreases 5 - i,
    {
        let h = header(i);
        let w = widest(&rows, i, h.len(), Ghost(spec_rows));
        widths.push(w);
        push_line(&mut heads, h.to_owned());
        proof {
            assert(headers().take(i + 1) =~= headers().take(i as int).push(headers()[i as int]));
        }
        i = i + 1;
    }
    let ghost spec_widths = table_widths(spec_rows);
    assert(widths@.map_values(|w: usize| w as nat) =~= spec_widths);
    assert(headers().take(5) =~= headers());
    push_line(&mut out, line_of(&heads, &widths));
    let mut k: usize = 0;
    while k < rows.len()
        invariant
            k <= rows@.len(),
            rows@.len() == browsers@.len(),
            browsers@.len() > 0,
            spec_rows == browsers@.map_values(|b: BrowserStatusEntry| row_cells(b)),
            forall|j: int| 0 <= j < rows@.len() ==> #[trigger] texts(rows@[j]@) == spec_rows[j],
            forall|j: int| 0 <= j < rows@.len() ==> (#[trigger] rows@[j])@.len() == 5,
            widths@.len() == 5,
            widths@.map_values(|w: usize| w as nat) == table_widths(spec_rows),
            texts(out@) == seq![table_line(headers(), table_widths(spec_rows))]
                + spec_rows.take(k as int).map_values(
                |cells: Seq<Seq<char>>| table_line(cells, table_widths(spec_rows)),
            ),
        decreases rows@.len() - k,
    {
        let line = line_of(&rows[k], &widths);
        push_line(&mut out, line);
        proof {
            assert(spec_rows.take(k + 1).map_values(
                |cells: Seq<Seq<char>>| table_line(cells, table_widths(spec_rows)),
            ) =~= spec_rows.take(k as int).map_values(
                |cells: Seq<Seq<char>>| table_line(cells, table_widths(spec_rows)),
            ).push(table_line(spec_rows[k as int], table_widths(spec_rows))));
        }
        k = k + 1;
    }
    assert(spec_rows.take(rows@.len() as int) =~= spec_rows);
    out
}

/// Render the browser list: the entries as JSON, or the table for humans.
pub fn run_list(reply: ListReply, format: Format) -> (r: Action<
    BrowserListParams,
    Vec<BrowserStatusEntry>,
>)
    ensures
        format is Json ==> r == Action::<BrowserListParams, Vec<BrowserStatusEntry>>::PrintJson(
            reply.browsers,
        ),
        format is Human ==> (r matches Action::Print(out) && out@ == browsers_rendering(
            reply.browsers@,
        )),
{
    match format {
        Format::Json => Action::PrintJson(reply.browsers),
        Format::Human => {
            let out = browser_table(&reply.browsers);
            let rendered = Rendered { stdout: out, stderr: Vec::new() };
            assert(rendered@.stderr =~= browsers_rendering(reply.browsers@).stderr);
            Action::Print(rendered)
        },
    }
}

/// `bsk browsers`: ask the daemon for its connected browsers (waiting
/// for a first one as `query` allows); on reply, render them.
pub fn dispatch(format: Format, query: &BrowserListQuery, step: Step<ListReply>) -> (r: Action<
    BrowserListParams,
    Vec<BrowserStatusEntry>,
>)
    ensures
        match step {
            Step::DaemonReady => r matches Action::Call(c) && c.id@ == "browser-list-1"@
                && c.method == Method::BrowserList && c.params.wait_for_browser_ms
                == query.wait_for_browser_ms && c.timeout == IpcTimeout::Custom(query.timeout),
            Step::Replied(reply) => {
                &&& format is Json ==> r == Action::<
                    BrowserListParams,
                    Vec<BrowserStatusEntry>,
                >::PrintJson(reply.browsers)
                &&& format is Human ==> (r matches Action::Print(out) && out@ == browsers_rendering(
                    reply.browsers@,
                ))
            },
        },
{
    match step {
        Step::DaemonReady => Action::Call(
            RpcCall {
                id: "browser-list-1",
                method: Method::BrowserList,
                params: BrowserListParams { wait_for_browser_ms: query.wait_for_browser_ms },
                timeout: IpcTimeout::Custom(query.timeout),
            },
        ),
        Step::Replied(reply) => run_list(reply, format),
    }
}


/// A column is as wide as the widest of its floor and of its cells in
/// every row, and exactly as wide as one of them.
pub proof fn lemma_column_width_is_widest(rows: Seq<Seq<Seq<char>>>, i: int, floor: nat)
    ensures
        column_width(rows, i, floor) >= floor,
        forall|k: int| 0 <= k < rows.len() ==> column_width(rows, i, floor) >= byte_width(
            #[trigger] rows[k][i],
        ),
        column_width(rows, i, floor) == floor || exists|k: int|
            0 <= k < rows.len() && column_width(rows, i, floor) == byte_width(#[trigger] rows[k][i]),
    decreases rows.len(),
{
    if rows.len() > 0 {
        let init = rows.drop_last();
        lemma_column_width_is_widest(init, i, floor);
        assert forall|k: int| 0 <= k < rows.len() implies column_width(rows, i, floor) >= byte_width(
            #[trigger] rows[k][i],
        ) by {
            if k < rows.len() - 1 {
                assert(rows[k] == init[k]);
            }
        }
        if column_width(rows, i, floor) != floor {
            if column_width(rows, i, floor) == byte_width(rows.last()[i]) {
                assert(rows[rows.len() - 1] == rows.last());
            } else {
                let k = choose|k: int|
                    0 <= k < init.len() && column_width(init, i, floor) == byte_width(
                        #[trigger] init[k][i],
                    );
                assert(rows[k] == init[k]);
            }
        }
    }
}

/// Every column of the table is at least as wide as its header and as
/// its cell in every row, and as wide as one of them, so every row's
/// first four cells are padded to one common width per column.
pub proof fn lemma_table_columns_fit_every_row(rows: Seq<Seq<Seq<char>>>, i: int)
    requires
        0 <= i < 5,
    ensures
        table_widths(rows)[i] >= byte_width(headers()[i]),
        forall|k: int| 0 <= k < rows.len() ==> table_widths(rows)[i] >= byte_width(
            #[trigger] rows[k][i],
        ),
        table_widths(rows)[i] == byte_width(headers()[i]) || exists|k: int|
            0 <= k < rows.len() && table_widths(rows)[i] == byte_width(#[trigger] rows[k][i]),
{
    lemma_column_width_is_widest(rows, i, byte_width(headers()[i]));
}

} // verus!
