//! Text helpers shared by the command-line logic: whitespace trimming,
//! unsigned decimal parsing and printing, and string assembly.
//!
//! Everything here works on the character view (`Seq<char>`) of strings.

use vstd::prelude::*;

verus! {

/// Unicode `White_Space` code points, the set `char::is_whitespace` and
/// `str::trim` are documented to use.
pub open spec fn is_ws(c: char) -> bool {
    ||| ('\u{9}' <= c && c <= '\u{D}')
    ||| c == ' '
    ||| c == '\u{85}'
    ||| c == '\u{A0}'
    ||| c == '\u{1680}'
    ||| ('\u{2000}' <= c && c <= '\u{200A}')
    ||| c == '\u{2028}'
    ||| c == '\u{2029}'
    ||| c == '\u{202F}'
    ||| c == '\u{205F}'
    ||| c == '\u{3000}'
}

/// `s` without its leading whitespace.
pub open spec fn trim_start(s: Seq<char>) -> Seq<char>
    decreases s.len(),
{
    if s.len() > 0 && is_ws(s[0]) {
        trim_start(s.drop_first())
    } else {
        s
    }
}

/// `s` without its trailing whitespace.
pub open spec fn trim_end(s: Seq<char>) -> Seq<char>
    decreases s.len(),
{
    if s.len() > 0 && is_ws(s.last()) {
        trim_end(s.drop_last())
    } else {
        s
    }
}

/// `s` without leading and trailing whitespace (what `str::trim` gives).
pub open spec fn trimmed(s: Seq<char>) -> Seq<char> {
    trim_end(trim_start(s))
}

pub open spec fn is_digit(c: char) -> bool {
    '0' <= c && c <= '9'
}

pub open spec fn all_digits(d: Seq<char>) -> bool {
    forall|i: int| 0 <= i < d.len() ==> #[trigger] is_digit(d[i])
}

pub open spec fn digit_value(c: char) -> nat {
    ((c as int) - ('0' as int)) as nat
}

/// The number written by the decimal digits `d` (most significant first).
pub open spec fn digits_value(d: Seq<char>) -> nat
    decreases d.len(),
{
    if d.len() == 0 {
        0
    } else {
        digits_value(d.drop_last()) * 10 + digit_value(d.last())
    }
}

/// What `<u64 as FromStr>::from_str` accepts: an optional `+` followed by
/// one or more ASCII digits whose value fits in a `u64`.
pub open spec fn parse_u64_text(t: Seq<char>) -> Option<u64> {
    let d = if t.len() > 0 && t[0] == '+' {
        t.drop_first()
    } else {
        t
    };
    if d.len() > 0 && all_digits(d) && digits_value(d) <= u64::MAX {
        Some(digits_value(d) as u64)
    } else {
        None
    }
}

/// The shortest decimal spelling of `n`.
pub open spec fn decimal_text(n: nat) -> Seq<char>
    decreases n,
{
    if n < 10 {
        seq![digit_char(n)]
    } else {
        decimal_text(n / 10).push(digit_char(n % 10))
    }
}

pub open spec fn digit_char(d: nat) -> char {
    if d == 0 {
        '0'
    } else if d == 1 {
        '1'
    } else if d == 2 {
        '2'
    } else if d == 3 {
        '3'
    } else if d == 4 {
        '4'
    } else if d == 5 {
        '5'
    } else if d == 6 {
        '6'
    } else if d == 7 {
        '7'
    } else if d == 8 {
        '8'
    } else {
        '9'
    }
}

/// Decimal spelling of a signed integer, with a leading `-` when negative.
pub open spec fn signed_decimal_text(n: int) -> Seq<char> {
    if n < 0 {
        seq!['-'] + decimal_text((-n) as nat)
    } else {
        decimal_text(n as nat)
    }
}

/// The characters of `s`, one per element.
pub fn chars_of(s: &str) -> (v: Vec<char>)
    ensures
        v@ == s@,
{
    let n = s.unicode_len();
    let mut v: Vec<char> = Vec::new();
    let mut i: usize = 0;
    while i < n
        invariant
            n == s@.len(),
            i <= n,
            v@ == s@.take(i as int),
        decreases n - i,
    {
        let c = s.get_char(i);
        v.push(c);
        i = i + 1;
        assert(v@ =~= s@.take(i as int));
    }
    assert(v@ =~= s@);
    v
}

/// Whether `c` has the Unicode `White_Space` property.
pub fn char_is_ws(c: char) -> (b: bool)
    ensures
        b == is_ws(c),
{
    ('\u{9}' <= c && c <= '\u{D}') || c == ' ' || c == '\u{85}' || c == '\u{A0}' || c
        == '\u{1680}' || ('\u{2000}' <= c && c <= '\u{200A}') || c == '\u{2028}' || c
        == '\u{2029}' || c == '\u{202F}' || c == '\u{205F}' || c == '\u{3000}'
}

proof fn lemma_trim_start_skip(s: Seq<char>, i: int)
    requires
        0 <= i < s.len(),
        is_ws(s[i]),
    ensures
        trim_start(s.skip(i)) == trim_start(s.skip(i + 1)),
{
    assert(s.skip(i).drop_first() =~= s.skip(i + 1));
}

proof fn lemma_trim_end_take(s: Seq<char>, j: int)
    requires
        0 < j <= s.len(),
        is_ws(s[j - 1]),
    ensures
        trim_end(s.take(j)) == trim_end(s.take(j - 1)),
{
    assert(s.take(j).drop_last() =~= s.take(j - 1));
}

/// `s` with leading and trailing whitespace removed, as `str::trim` does.
pub fn trim_ws(s: &str) -> (t: &str)
    ensures
        t@ == trimmed(s@),
{
    let cs = chars_of(s);
    let n = cs.len();
    let mut i: usize = 0;
    assert(s@.skip(0) =~= s@);
    while i < n && char_is_ws(cs[i])
        invariant
            cs@ == s@,
            n == cs.len(),
            i <= n,
            trim_start(s@) == trim_start(s@.skip(i as int)),
        decreases n - i,
    {
        proof {
            lemma_trim_start_skip(s@, i as int);
        }
        i = i + 1;
    }
    let ghost rest = s@.skip(i as int);
    assert(trim_start(s@) == rest) by {
        assert(rest.len() == 0 || !is_ws(rest[0]));
    }
    let mut j: usize = n;
    assert(rest.take(j - i) =~= rest);
    while j > i && char_is_ws(cs[j - 1])
        invariant
            cs@ == s@,
            n == cs.len(),
            i <= j <= n,
            rest == s@.skip(i as int),
            trim_end(rest) == trim_end(rest.take(j - i)),
        decreases j,
    {
        proof {
            lemma_trim_end_take(rest, (j - i) as int);
        }
        j = j - 1;
    }
    assert(trim_end(rest.take(j - i)) == rest.take(j - i)) by {
        let r = rest.take(j - i);
        assert(r.len() == 0 || !is_ws(r.last()));
    }
    assert(rest.take(j - i) =~= s@.subrange(i as int, j as int));
    s.substring_char(i, j)
}

proof fn lemma_digits_value_prefix_le(d: Seq<char>, k: int)
    requires
        0 <= k <= d.len(),
    ensures
        digits_value(d.take(k)) <= digits_value(d),
    decreases d.len() - k,
{
    if k < d.len() {
        lemma_digits_value_prefix_le(d, k + 1);
        assert(d.take(k + 1).drop_last() =~= d.take(k));
    } else {
        assert(d.take(k) =~= d);
    }
}

/// Parse `t` as `<u64 as FromStr>::from_str` does.
pub fn parse_u64(t: &str) -> (r: Option<u64>)
    ensures
        r == parse_u64_text(t@),
{
    let cs = chars_of(t);
    let n = cs.len();
    let start: usize = if n > 0 && cs[0] == '+' {
        1
    } else {
        0
    };
    let ghost d = if t@.len() > 0 && t@[0] == '+' {
        t@.drop_first()
    } else {
        t@
    };
    assert(d =~= t@.skip(start as int));
    if start == n {
        return None;
    }
    let mut acc: u64 = 0;
    let mut i: usize = start;
    while i < n
        invariant
            cs@ == t@,
            n == cs.len(),
            start <= i <= n,
            d == t@.skip(start as int),
            d == (if t@.len() > 0 && t@[0] == '+' {
                t@.drop_first()
            } else {
                t@
            }),
            all_digits(d.take(i - start)),
            acc as nat == digits_value(d.take(i - start)),
        decreases n - i,
    {
        let c = cs[i];
        if !('0' <= c && c <= '9') {
            assert(!is_digit(d[i - start]));
            return None;
        }
        let dv: u64 = ((c as u32) - ('0' as u32)) as u64;
        let ghost pre = d.take(i - start);
        let ghost next = d.take(i - start + 1);
        assert(next.drop_last() =~= pre);
        assert(next.last() == c);
        match acc.checked_mul(10) {
            Some(m) => match m.checked_add(dv) {
                Some(v) => {
                    acc = v;
                },
                None => {
                    proof {
                        lemma_digits_value_prefix_le(d, i - start + 1);
                        assert(digits_value(next) == digits_value(pre) * 10 + digit_value(c));
                    }
                    return None;
                },
            },
            None => {
                proof {
                    lemma_digits_value_prefix_le(d, i - start + 1);
                }
                return None;
            },
        }
        i = i + 1;
        assert(all_digits(d.take(i - start))) by {
            assert forall|k: int| 0 <= k < d.take(i - start).len() implies is_digit(
                #[trigger] d.take(i - start)[k],
            ) by {
                if k < i - start - 1 {
                    assert(d.take(i - start)[k] == pre[k]);
                }
            }
        }
    }
    assert(d.take(n - start) =~= d);
    Some(acc)
}

/// The one-character spelling of the decimal digit `d`.
fn digit_str(d: u64) -> (r: &'static str)
    requires
        d < 10,
    ensures
        r@ == seq![digit_char(d as nat)],
{
    proof {
        reveal_strlit("0");
        reveal_strlit("1");
        reveal_strlit("2");
        reveal_strlit("3");
        reveal_strlit("4");
        reveal_strlit("5");
        reveal_strlit("6");
        reveal_strlit("7");
        reveal_strlit("8");
        reveal_strlit("9");
    }
    if d == 0 {
        "0"
    } else if d == 1 {
        "1"
    } else if d == 2 {
        "2"
    } else if d == 3 {
        "3"
    } else if d == 4 {
        "4"
    } else if d == 5 {
        "5"
    } else if d == 6 {
        "6"
    } else if d == 7 {
        "7"
    } else if d == 8 {
        "8"
    } else {
        "9"
    }
}

/// Decimal spelling of `n`, as `u64`'s `Display` prints it.
pub fn decimal(n: u64) -> (r: String)
    ensures
        r@ == decimal_text(n as nat),
    decreases n,
{
    if n < 10 {
        digit_str(n).to_owned()
    } else {
        let mut r = decimal(n / 10);
        r.append(digit_str(n % 10));
        r
    }
}

/// Decimal spelling of `n`, as `i64`'s `Display` prints it.
pub fn signed_decimal(n: i64) -> (r: String)
    ensures
        r@ == signed_decimal_text(n as int),
{
    if n < 0 {
        let magnitude: u64 = (0i128 - (n as i128)) as u64;
        let mut r = "-".to_owned();
        proof {
            reveal_strlit("-");
        }
        r.append(decimal(magnitude).as_str());
        r
    } else {
        decimal(n as u64)
    }
}

/// `a` followed by `b`.
pub fn concat(a: &str, b: &str) -> (r: String)
    ensures
        r@ == a@ + b@,
{
    let mut r = a.to_owned();
    r.append(b);
    r
}

/// `a`, then `b`, then `c`.
pub fn concat3(a: &str, b: &str, c: &str) -> (r: String)
    ensures
        r@ == a@ + b@ + c@,
{
    let mut r = a.to_owned();
    r.append(b);
    r.append(c);
    r
}

/// Whether `a` and `b` hold the same characters.
pub fn same_text(a: &str, b: &str) -> (r: bool)
    ensures
        r == (a@ == b@),
{
    a.to_owned() == b.to_owned()
}

proof fn lemma_digit_char_value(d: nat)
    requires
        d < 10,
    ensures
        is_digit(digit_char(d)),
        digit_value(digit_char(d)) == d,
{
}

/// What `<u32 as FromStr>::from_str` accepts: the `u64` grammar, with the
/// value fitting in a `u32`.
pub open spec fn parse_u32_text(t: Seq<char>) -> Option<u32> {
    match parse_u64_text(t) {
        Some(v) => if v <= u32::MAX {
            Some(v as u32)
        } else {
            None
        },
        None => None,
    }
}

/// Parse `t` as `<u32 as FromStr>::from_str` does.
pub fn parse_u32(t: &str) -> (r: Option<u32>)
    ensures
        r == parse_u32_text(t@),
{
    match parse_u64(t) {
        Some(v) => if v <= 4294967295u64 {
            Some(v as u32)
        } else {
            None
        },
        None => None,
    }
}

/// The decimal spelling of `n` is a non-empty run of digits whose value is `n`.
pub proof fn lemma_decimal_text_digits(n: nat)
    ensures
        decimal_text(n).len() > 0,
        all_digits(decimal_text(n)),
        digits_value(decimal_text(n)) == n,
    decreases n,
{
    if n < 10 {
        lemma_digit_char_value(n);
        let d = decimal_text(n);
        assert(d.drop_last() =~= Seq::<char>::empty());
        assert(digits_value(d) == digits_value(d.drop_last()) * 10 + digit_value(d.last()));
    }
    if n >= 10 {
        lemma_decimal_text_digits(n / 10);
        let d = decimal_text(n);
        assert(d.drop_last() =~= decimal_text(n / 10));
        lemma_digit_char_value(n % 10);
        assert(d.last() == digit_char(n % 10));
        assert(digits_value(d) == digits_value(d.drop_last()) * 10 + digit_value(d.last()));
        assert(digits_value(d) == (n / 10) * 10 + n % 10);
        assert(n == (n / 10) * 10 + n % 10);
        assert forall|i: int| 0 <= i < d.len() implies #[trigger] is_digit(d[i]) by {
            if i < d.len() - 1 {
                assert(d[i] == decimal_text(n / 10)[i]);
            }
        }
    }
}

/// Printing a `u64` in decimal and parsing it back gives the same number.
pub proof fn lemma_parse_decimal_round_trip(n: u64)
    ensures
        parse_u64_text(decimal_text(n as nat)) == Some(n),
{
    lemma_decimal_text_digits(n as nat);
    let d = decimal_text(n as nat);
    assert(is_digit(d[0]));
}

/// Trimming leaves alone a text whose first and last characters are not
/// whitespace.
pub proof fn lemma_trimmed_unchanged(s: Seq<char>)
    requires
        s.len() > 0,
        !is_ws(s[0]),
        !is_ws(s.last()),
    ensures
        trimmed(s) == s,
{
}

/// The items of `items` with `sep` between each two neighbours.
pub open spec fn joined(items: Seq<Seq<char>>, sep: Seq<char>) -> Seq<char>
    decreases items.len(),
{
    if items.len() == 0 {
        Seq::empty()
    } else if items.len() == 1 {
        items[0]
    } else {
        joined(items.drop_last(), sep) + sep + items.last()
    }
}

/// What `format!("{:?}", s)` produces for a string slice `s`: the text in
/// double quotes with Rust's debug escapes applied.
pub uninterp spec fn debug_quote_text(s: Seq<char>) -> Seq<char>;

/// `s` as its `Debug` form prints it.
///
/// Calls `<str as core::fmt::Debug>::fmt` through `format!`. The contract
/// only ties the result to `s` through `debug_quote_text`; which
/// characters get escaped is left to the standard library.
#[verifier::external_body]
pub fn debug_quoted(s: &str) -> (r: String)
    ensures
        r@ == debug_quote_text(s@),
{
    format!("{:?}", s)
}

} // verus!
