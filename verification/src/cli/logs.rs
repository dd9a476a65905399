//! `bsk logs` — print the most recent daemon log file, optionally
//! following it. The directory listing and the file reads happen in the
//! caller; this module picks the file, the lines to print, and where to
//! resume reading.

use vstd::prelude::*;

use crate::cli::flow::{push_line, texts};
use crate::text::chars_of;

verus! {

#[derive(Debug, Clone, PartialEq)]
pub struct LogsArgs {
    /// Keep printing lines as the daemon appends them.
    pub follow: bool,
    /// How many trailing lines to print first.
    pub lines: usize,
}

impl Default for LogsArgs {
    /// The last 200 lines, without following.
    fn default() -> (r: LogsArgs)
        ensures
            r == (LogsArgs { follow: false, lines: 200 }),
    {
        LogsArgs { follow: false, lines: 200 }
    }
}

/// One entry of the log directory.
#[derive(Debug, Clone, PartialEq)]
pub struct LogDirEntry {
    /// File name (lossily decoded).
    pub name: String,
    /// Whether the entry is a regular file.
    pub is_file: bool,
}

/// `a` sorts before `b` character by character (a proper prefix sorts
/// first), the order of `String`'s `Ord`.
pub open spec fn text_lt(a: Seq<char>, b: Seq<char>) -> bool
    decreases a.len(),
{
    if b.len() == 0 {
        false
    } else if a.len() == 0 {
        true
    } else if a[0] != b[0] {
        a[0] < b[0]
    } else {
        text_lt(a.drop_first(), b.drop_first())
    }
}

/// Name prefix of the files the daemon's rolling appender writes.
pub open spec fn log_prefix() -> Seq<char> {
    "daemon.log"@
}

/// Whether `e` is one of the daemon's log files.
pub open spec fn is_log_file(e: LogDirEntry) -> bool {
    e.is_file && e.name@.len() >= log_prefix().len() && e.name@.take(log_prefix().len() as int)
        == log_prefix()
}

/// Whether `i` is the newest log file of `entries`: a log file whose
/// name no log file's name sorts after, and the first such.
pub open spec fn is_latest_log(entries: Seq<LogDirEntry>, i: int) -> bool {
    &&& 0 <= i < entries.len()
    &&& is_log_file(entries[i])
    &&& forall|j: int| 0 <= j < entries.len() && is_log_file(#[trigger] entries[j]) ==> !text_lt(
        entries[i].name@,
        entries[j].name@,
    )
    &&& forall|j: int| 0 <= j < i && is_log_file(#[trigger] entries[j]) ==> text_lt(
        entries[j].name@,
        entries[i].name@,
    )
}

/// Whether `a` sorts strictly before `b`.
pub fn text_less(a: &str, b: &str) -> (r: bool)
    ensures
        r == text_lt(a@, b@),
{
    let x = chars_of(a);
    let y = chars_of(b);
    let mut i: usize = 0;
    assert(a@.skip(0) =~= a@);
    assert(b@.skip(0) =~= b@);
    while i < x.len() && i < y.len() && x[i] == y[i]
        invariant
            x@ == a@,
            y@ == b@,
            i <= x@.len(),
            i <= y@.len(),
            text_lt(a@, b@) == text_lt(a@.skip(i as int), b@.skip(i as int)),
        decreases x@.len() - i,
    {
        proof {
            assert(a@.skip(i as int).drop_first() =~= a@.skip(i + 1));
            assert(b@.skip(i as int).drop_first() =~= b@.skip(i + 1));
        }
        i = i + 1;
    }
    if i == y.len() {
        false
    } else if i == x.len() {
        true
    } else {
        x[i] < y[i]
    }
}

fn is_log(e: &LogDirEntry) -> (r: bool)
    ensures
        r == is_log_file(*e),
{
    if !e.is_file {
        return false;
    }
    let name = chars_of(e.name.as_str());
    let prefix = chars_of("daemon.log");
    if name.len() < prefix.len() {
        return false;
    }
    let mut i: usize = 0;
    while i < prefix.len()
        invariant
            name@ == e.name@,
            prefix@ == log_prefix(),
            name@.len() >= prefix@.len(),
            i <= prefix@.len(),
            forall|k: int| 0 <= k < i ==> name@[k] == prefix@[k],
        decreases prefix@.len() - i,
    {
        if name[i] != prefix[i] {
            assert(name@.take(prefix@.len() as int)[i as int] != prefix@[i as int]);
            return false;
        }
        i = i + 1;
    }
    assert(name@.take(prefix@.len() as int) =~= prefix@);
    true
}

proof fn lemma_text_lt_irreflexive(a: Seq<char>)
    ensures
        !text_lt(a, a),
    decreases a.len(),
{
    if a.len() > 0 {
        lemma_text_lt_irreflexive(a.drop_first());
    }
}

proof fn lemma_text_lt_total(a: Seq<char>, b: Seq<char>)
    ensures
        a != b ==> text_lt(a, b) || text_lt(b, a),
    decreases a.len(),
{
    if a.len() > 0 && b.len() > 0 && a[0] == b[0] {
        lemma_text_lt_total(a.drop_first(), b.drop_first());
        if a.drop_first() == b.drop_first() {
            assert(a.drop_first().len() == a.len() - 1);
            assert(b.drop_first().len() == b.len() - 1);
            assert(a.len() == b.len());
            assert forall|i: int| 0 <= i < a.len() implies a[i] == b[i] by {
                if i > 0 {
                    assert(a[i] == a.drop_first()[i - 1]);
                    assert(b[i] == b.drop_first()[i - 1]);
                }
            }
            assert(a =~= b);
        }
    }
    if a.len() == 0 && b.len() == 0 {
        assert(a =~= b);
    }
}

proof fn lemma_text_lt_transitive(a: Seq<char>, b: Seq<char>, c: Seq<char>)
    requires
        text_lt(a, b),
        text_lt(b, c),
    ensures
        text_lt(a, c),
    decreases a.len(),
{
    if a.len() > 0 && b.len() > 0 && c.len() > 0 && a[0] == b[0] && b[0] == c[0] {
        lemma_text_lt_transitive(a.drop_first(), b.drop_first(), c.drop_first());
    }
}

/// The index of the newest daemon log file among `entries`: the first of
/// the log files with the greatest name. `None` when there is none.
pub fn latest_log_file(entries: &Vec<LogDirEntry>) -> (r: Option<usize>)
    ensures
        match r {
            Some(i) => is_latest_log(entries@, i as int),
            None => forall|j: int| 0 <= j < entries@.len() ==> !is_log_file(#[trigger] entries@[j]),
        },
{
    let mut best: Option<usize> = None;
    let mut k: usize = 0;
    while k < entries.len()
        invariant
            k <= entries@.len(),
            match best {
                Some(b) => b < k && is_log_file(entries@[b as int]) && (forall|j: int|
                    0 <= j < k && is_log_file(#[trigger] entries@[j]) ==> !text_lt(
                        entries@[b as int].name@,
                        entries@[j].name@,
                    )) && (forall|j: int|
                    0 <= j < b && is_log_file(#[trigger] entries@[j]) ==> text_lt(
                        entries@[j].name@,
                        entries@[b as int].name@,
                    )),
                None => forall|j: int| 0 <= j < k ==> !is_log_file(#[trigger] entries@[j]),
            },
        decreases entries@.len() - k,
    {
        let e = &entries[k];
        if is_log(e) {
            match best {
                Some(b) => {
                    if text_less(entries[b].name.as_str(), e.name.as_str()) {
                        proof {
                            let nb = entries@[b as int].name@;
                            let nk = e.name@;
                            lemma_text_lt_irreflexive(nk);
                            assert forall|j: int|
                                0 <= j < k + 1 && is_log_file(#[trigger] entries@[j]) implies !text_lt(
                                nk,
                                entries@[j].name@,
                            ) by {
                                if j < k {
                                    let nj = entries@[j].name@;
                                    if text_lt(nk, nj) {
                                        lemma_text_lt_transitive(nb, nk, nj);
                                    }
                                }
                            }
                            assert forall|j: int|
                                0 <= j < k && is_log_file(#[trigger] entries@[j]) implies text_lt(
                                entries@[j].name@,
                                nk,
                            ) by {
                                let nj = entries@[j].name@;
                                if j < b {
                                    lemma_text_lt_transitive(nj, nb, nk);
                                } else if j == b {
                                } else {
                                    lemma_text_lt_total(nj, nb);
                                    if nj == nb {
                                    } else {
                                        lemma_text_lt_transitive(nj, nb, nk);
                                    }
                                }
                            }
                        }
                        best = Some(k);
                    }
                },
                None => {
                    proof {
                        lemma_text_lt_irreflexive(e.name@);
                    }
                    best = Some(k);
                },
            }
        }
        k = k + 1;
    }
    best
}

/// The pieces of `s` between `'\n'` characters (what `split('\n')`
/// yields): always at least one, possibly empty.
pub open spec fn pieces(s: Seq<char>) -> Seq<Seq<char>>
    decreases s.len(),
{
    if s.len() == 0 {
        seq![Seq::empty()]
    } else {
        let p = pieces(s.drop_last());
        if s.last() == '\n' {
            p.push(Seq::empty())
        } else {
            p.update(p.len() - 1, p.last().push(s.last()))
        }
    }
}

/// `l` without one trailing `'\r'`.
pub open spec fn strip_cr(l: Seq<char>) -> Seq<char> {
    if l.len() > 0 && l.last() == '\r' {
        l.drop_last()
    } else {
        l
    }
}

/// The lines of `s`, as `str::lines` yields them: split at `"\n"` or
/// `"\r\n"`, with the final line ending optional.
pub open spec fn text_lines(s: Seq<char>) -> Seq<Seq<char>> {
    let p = pieces(s);
    let ended = p.drop_last().map_values(|l: Seq<char>| strip_cr(l));
    if s.len() == 0 || s.last() == '\n' {
        ended
    } else {
        ended.push(p.last())
    }
}

/// The last `n` of `lines` (all of them when there are fewer).
pub open spec fn last_n(lines: Seq<Seq<char>>, n: nat) -> Seq<Seq<char>> {
    if lines.len() <= n {
        lines
    } else {
        lines.skip(lines.len() - n)
    }
}

proof fn lemma_pieces_nonempty(s: Seq<char>)
    ensures
        pieces(s).len() >= 1,
    decreases s.len(),
{
    if s.len() > 0 {
        lemma_pieces_nonempty(s.drop_last());
    }
}

fn without_cr<'a>(l: &'a str) -> (r: &'a str)
    ensures
        r@ == strip_cr(l@),
{
    let n = l.unicode_len();
    if n > 0 && l.get_char(n - 1) == '\r' {
        assert(l@.drop_last() =~= l@.subrange(0, n - 1));
        l.substring_char(0, n - 1)
    } else {
        l
    }
}

/// The lines of `text`, as `str::lines` yields them.
pub fn lines_of(text: &str) -> (r: Vec<String>)
    ensures
        texts(r@) == text_lines(text@),
{
    let cs = chars_of(text);
    let n = cs.len();
    let mut out: Vec<String> = Vec::new();
    let mut start: usize = 0;
    let mut i: usize = 0;
    assert(text@.take(0) =~= Seq::<char>::empty());
    assert(text@.subrange(0, 0) =~= Seq::<char>::empty());
    while i < n
        invariant
            cs@ == text@,
            n == cs@.len(),
            start <= i <= n,
            pieces(text@.take(i as int)).len() >= 1,
            text@.subrange(start as int, i as int) == pieces(text@.take(i as int)).last(),
            texts(out@) == pieces(text@.take(i as int)).drop_last().map_values(
                |l: Seq<char>| strip_cr(l),
            ),
        decreases n - i,
    {
        let ghost p = pieces(text@.take(i as int));
        proof {
            assert(text@.take(i + 1).drop_last() =~= text@.take(i as int));
            assert(text@.take(i + 1).last() == cs@[i as int]);
        }
        if cs[i] == '\n' {
            let piece = text.substring_char(start, i);
            push_line(&mut out, without_cr(piece).to_owned());
            proof {
                let q = pieces(text@.take(i + 1));
                assert(q == p.push(Seq::empty()));
                assert(q.drop_last() =~= p);
                assert(p.map_values(|l: Seq<char>| strip_cr(l)) =~= p.drop_last().map_values(
                    |l: Seq<char>| strip_cr(l),
                ).push(strip_cr(p.last())));
                assert(text@.subrange(i + 1, i + 1) =~= Seq::<char>::empty());
            }
            start = i + 1;
        } else {
            proof {
                let q = pieces(text@.take(i + 1));
                assert(q == p.update(p.len() - 1, p.last().push(cs@[i as int])));
                assert(q.drop_last() =~= p.drop_last());
                assert(text@.subrange(start as int, i + 1) =~= p.last().push(cs@[i as int]));
            }
        }
        i = i + 1;
    }
    assert(text@.take(n as int) =~= text@);
    if n > 0 && cs[n - 1] != '\n' {
        push_line(&mut out, text.substring_char(start, n).to_owned());
    }
    out
}

/// The last `n` lines of `text`, as `bsk logs` prints them first.
pub fn tail_lines(text: &str, n: usize) -> (r: Vec<String>)
    ensures
        texts(r@) == last_n(text_lines(text@), n as nat),
{
    let all = lines_of(text);
    let len = all.len();
    let from: usize = if len <= n {
        0
    } else {
        len - n
    };
    let mut out: Vec<String> = Vec::new();
    let mut k: usize = from;
    while k < len
        invariant
            len == all@.len(),
            from <= k <= len,
            texts(out@) == texts(all@).subrange(from as int, k as int),
        decreases len - k,
    {
        push_line(&mut out, all[k].clone());
        proof {
            assert(texts(all@).subrange(from as int, k + 1) =~= texts(all@).subrange(
                from as int,
                k as int,
            ).push(all@[k as int]@));
        }
        k = k + 1;
    }
    assert(texts(all@).subrange(from as int, len as int) =~= last_n(texts(all@), n as nat));
    out
}

/// What `String::from_utf8_lossy` makes of `bytes`: the text they
/// encode, each invalid UTF-8 sequence replaced by U+FFFD.
pub uninterp spec fn lossy_text(bytes: Seq<u8>) -> Seq<char>;

/// Calls `String::from_utf8_lossy` on the bytes of a log file. The
/// decoding rules are not restated; the result is named by the bytes.
#[verifier::external_body]
fn decode_lossy(bytes: &[u8]) -> (r: String)
    ensures
        r@ == lossy_text(bytes@),
{
    String::from_utf8_lossy(bytes).into_owned()
}

/// The last `n` lines of a log file's bytes, decoded as `bsk logs`
/// decodes them, as it prints them first.
pub fn tail_of_log(bytes: &[u8], n: usize) -> (r: Vec<String>)
    ensures
        texts(r@) == last_n(text_lines(lossy_text(bytes@)), n as nat),
{
    let text = decode_lossy(bytes);
    tail_lines(text.as_str(), n)
}

/// The offset into the followed file after looking for a newer log:
/// reading starts over at 0 when a newer file took its place.
pub open spec fn restart_offset(switched: bool, offset: u64) -> u64 {
    if switched {
        0
    } else {
        offset
    }
}

/// Where `bsk logs --follow` continues after checking for rotation:
/// from the start of a newer log file, else where it was.
pub fn offset_after_switch(switched: bool, offset: u64) -> (r: u64)
    ensures
        r == restart_offset(switched, offset),
{
    if switched {
        0
    } else {
        offset
    }
}

/// Where `bsk logs --follow` resumes reading a log file that is now
/// `len` bytes long, having printed up to `offset`: from the start when
/// the file shrank (truncated or rotated), nothing when it did not grow.
pub open spec fn resume_at(offset: u64, len: u64) -> Option<u64> {
    let start = if len < offset {
        0
    } else {
        offset
    };
    if len == start {
        None
    } else {
        Some(start)
    }
}

/// One poll of `bsk logs --follow` on a file now `len` bytes long,
/// having printed up to `offset`: where to read from (`None` when there
/// is nothing new), and the offset printed up to afterwards, which is
/// the file's length whether it read to the end, found nothing new, or
/// found the file emptied.
pub fn follow_step(offset: u64, len: u64) -> (r: (Option<u64>, u64))
    ensures
        r == (resume_at(offset, len), len),
{
    (follow_offset(offset, len), len)
}

/// The offset to read from next, or `None` when there is nothing new.
pub fn follow_offset(offset: u64, len: u64) -> (r: Option<u64>)
    ensures
        r == resume_at(offset, len),
{
    let start = if len < offset {
        0
    } else {
        offset
    };
    if len == start {
        None
    } else {
        Some(start)
    }
}


/// A poll skips reading only when the file length equals the point it
/// resumes from: a file that grew is read from where printing stopped,
/// a file that shrank (truncated, or a newer log switched to) from its
/// start unless it is empty, and the next poll starts at the length.
pub proof fn lemma_follow_reads_whatever_is_new(offset: u64, len: u64, switched: bool)
    ensures
        len > offset ==> resume_at(offset, len) == Some(offset),
        len == offset ==> resume_at(offset, len) is None,
        len < offset && len > 0 ==> resume_at(offset, len) == Some(0u64),
        len == 0 ==> resume_at(offset, len) is None,
        len > 0 ==> resume_at(0, len) == Some(0u64),
        switched ==> restart_offset(switched, offset) == 0,
        !switched ==> restart_offset(switched, offset) == offset,
{
}

} // verus!
