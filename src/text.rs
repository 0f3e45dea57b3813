//! Character-level helpers: whitespace, trimming, line splitting, decimal
//! numbers and key/value pair lists.
use vstd::prelude::*;

verus! {

/// The Unicode `White_Space` property, as `char::is_whitespace` defines it.
pub open spec fn is_ws(c: char) -> bool {
    ||| ('\t' <= c && c <= '\r')
    ||| c == ' '
    ||| c == '\u{85}'
    ||| c == '\u{a0}'
    ||| c == '\u{1680}'
    ||| ('\u{2000}' <= c && c <= '\u{200a}')
    ||| c == '\u{2028}'
    ||| c == '\u{2029}'
    ||| c == '\u{202f}'
    ||| c == '\u{205f}'
    ||| c == '\u{3000}'
}

pub fn is_whitespace(c: char) -> (r: bool)
    ensures
        r == is_ws(c),
{
    ('\t' <= c && c <= '\r') || c == ' ' || c == '\u{85}' || c == '\u{a0}' || c == '\u{1680}'
        || ('\u{2000}' <= c && c <= '\u{200a}') || c == '\u{2028}' || c == '\u{2029}' || c
        == '\u{202f}' || c == '\u{205f}' || c == '\u{3000}'
}

pub open spec fn trim_start(s: Seq<char>) -> Seq<char>
    decreases s.len(),
{
    if s.len() > 0 && is_ws(s[0]) {
        trim_start(s.drop_first())
    } else {
        s
    }
}

pub open spec fn trim_end(s: Seq<char>) -> Seq<char>
    decreases s.len(),
{
    if s.len() > 0 && is_ws(s.last()) {
        trim_end(s.drop_last())
    } else {
        s
    }
}

/// `s` without leading and trailing whitespace.
pub open spec fn trim(s: Seq<char>) -> Seq<char> {
    trim_end(trim_start(s))
}

/// Every character is whitespace (the empty line included).
pub open spec fn is_blank(s: Seq<char>) -> bool {
    forall|i: int| 0 <= i < s.len() ==> is_ws(#[trigger] s[i])
}

/// Relies on `str::chars`: the characters of `s`, in order.
#[verifier::external_body]
pub(crate) fn chars_of(s: &str) -> (r: Vec<char>)
    ensures
        r@ == s@,
{
    s.chars().collect()
}

/// Relies on `FromIterator<char>` for `String`: the string of `v[lo..hi]`.
#[verifier::external_body]
pub(crate) fn string_of(v: &Vec<char>, lo: usize, hi: usize) -> (r: String)
    requires
        lo <= hi <= v@.len(),
    ensures
        r@ == v@.subrange(lo as int, hi as int),
{
    v[lo..hi].iter().collect()
}

proof fn lemma_trim_start_skip(s: Seq<char>, i: int)
    requires
        0 <= i <= s.len(),
        forall|j: int| 0 <= j < i ==> is_ws(#[trigger] s[j]),
    ensures
        trim_start(s) == trim_start(s.subrange(i, s.len() as int)),
    decreases i,
{
    if i == 0 {
        assert(s.subrange(0, s.len() as int) == s);
    } else {
        assert(is_ws(s[0]));
        assert(s.drop_first() == s.subrange(1, s.len() as int));
        lemma_trim_start_skip(s.drop_first(), i - 1);
        assert(s.drop_first().subrange(i - 1, s.drop_first().len() as int) == s.subrange(
            i,
            s.len() as int,
        ));
    }
}

proof fn lemma_trim_end_cut(s: Seq<char>, lo: int, hi: int)
    requires
        0 <= lo <= hi <= s.len(),
        forall|j: int| hi <= j < s.len() ==> is_ws(#[trigger] s[j]),
    ensures
        trim_end(s.subrange(lo, s.len() as int)) == trim_end(s.subrange(lo, hi)),
    decreases s.len() - hi,
{
    if hi < s.len() {
        let t = s.subrange(lo, s.len() as int);
        assert(t.drop_last() == s.drop_last().subrange(lo, s.drop_last().len() as int));
        lemma_trim_end_cut(s.drop_last(), lo, hi);
        assert(s.drop_last().subrange(lo, hi) == s.subrange(lo, hi));
    }
}

/// Bounds of `v` with surrounding whitespace removed.
pub fn trim_bounds(v: &Vec<char>) -> (r: (usize, usize))
    ensures
        r.0 <= r.1 <= v@.len(),
        v@.subrange(r.0 as int, r.1 as int) == trim(v@),
{
    let n = v.len();
    let mut lo: usize = 0;
    while lo < n && is_whitespace(v[lo])
        invariant
            lo <= n == v@.len(),
            forall|j: int| 0 <= j < lo ==> is_ws(#[trigger] v@[j]),
        decreases n - lo,
    {
        lo = lo + 1;
    }
    proof {
        lemma_trim_start_skip(v@, lo as int);
        assert(trim_start(v@.subrange(lo as int, n as int)) == v@.subrange(lo as int, n as int));
    }
    let mut hi: usize = n;
    while hi > lo && is_whitespace(v[hi - 1])
        invariant
            lo <= hi <= n == v@.len(),
            forall|j: int| hi <= j < n ==> is_ws(#[trigger] v@[j]),
        decreases hi,
    {
        hi = hi - 1;
    }
    proof {
        lemma_trim_end_cut(v@, lo as int, hi as int);
        let t = v@.subrange(lo as int, hi as int);
        if t.len() > 0 {
            assert(t.last() == v@[hi - 1]);
        }
    }
    (lo, hi)
}

/// `s` with at most one trailing carriage return removed.
pub open spec fn strip_cr(s: Seq<char>) -> Seq<char> {
    if s.len() > 0 && s.last() == '\r' {
        s.drop_last()
    } else {
        s
    }
}

/// Splits at each `'\n'`; `k` newlines give `k + 1` pieces.
pub open spec fn split_newlines(s: Seq<char>) -> Seq<Seq<char>>
    decreases s.len(),
{
    if s.len() == 0 {
        seq![Seq::empty()]
    } else {
        let prev = split_newlines(s.drop_last());
        if s.last() == '\n' {
            prev.push(Seq::empty())
        } else {
            prev.update(prev.len() - 1, prev.last().push(s.last()))
        }
    }
}

pub open spec fn strings_view(v: Seq<String>) -> Seq<Seq<char>> {
    v.map_values(|s: String| s@)
}

proof fn lemma_split_nonempty(s: Seq<char>)
    ensures
        split_newlines(s).len() >= 1,
    decreases s.len(),
{
    if s.len() > 0 {
        lemma_split_nonempty(s.drop_last());
    }
}

/// The lines of `text`, split at `'\n'` with one trailing `'\r'` removed from
/// each.
pub fn split_lines(text: &str) -> (r: Vec<String>)
    ensures
        strings_view(r@) == split_newlines(text@).map_values(|l: Seq<char>| strip_cr(l)),
{
    let v = chars_of(text);
    let n = v.len();
    let mut out: Vec<String> = Vec::new();
    let mut start: usize = 0;
    let mut i: usize = 0;
    assert(v@.take(0) == Seq::<char>::empty());
    while i < n
        invariant
            n == v@.len(),
            v@ == text@,
            start <= i <= n,
            split_newlines(v@.take(i as int)).len() == out@.len() + 1,
            split_newlines(v@.take(i as int)).last() == v@.subrange(start as int, i as int),
            forall|j: int|
                0 <= j < out@.len() ==> (#[trigger] out@[j])@ == strip_cr(
                    split_newlines(v@.take(i as int))[j],
                ),
        decreases n - i,
    {
        let ghost pre = split_newlines(v@.take(i as int));
        let ghost old_out = out@;
        proof {
            assert(v@.take(i + 1).drop_last() == v@.take(i as int));
        }
        if v[i] == '\n' {
            let mut hi = i;
            if hi > start && v[hi - 1] == '\r' {
                hi = hi - 1;
            }
            let line = string_of(&v, start, hi);
            proof {
                let seg = v@.subrange(start as int, i as int);
                if seg.len() > 0 {
                    assert(seg.last() == v@[i - 1]);
                }
                assert(line@ =~= strip_cr(seg));
            }
            out.push(line);
            start = i + 1;
            proof {
                let post = split_newlines(v@.take(i + 1));
                assert(post == pre.push(Seq::empty()));
                assert(v@.subrange(start as int, i + 1) =~= Seq::<char>::empty());
                assert forall|j: int| 0 <= j < out@.len() implies (#[trigger] out@[j])@
                    == strip_cr(post[j]) by {
                    if j < old_out.len() {
                        assert(out@[j] == old_out[j]);
                    }
                }
            }
        } else {
            proof {
                let post = split_newlines(v@.take(i + 1));
                assert(post == pre.update(pre.len() - 1, pre.last().push(v@[i as int])));
                assert(v@.subrange(start as int, i as int).push(v@[i as int]) =~= v@.subrange(
                    start as int,
                    i + 1,
                ));
            }
        }
        i = i + 1;
    }
    let mut hi = n;
    if hi > start && v[hi - 1] == '\r' {
        hi = hi - 1;
    }
    let last = string_of(&v, start, hi);
    let ghost old_out = out@;
    out.push(last);
    proof {
        assert(v@.take(n as int) == v@);
        let all = split_newlines(v@);
        let seg = v@.subrange(start as int, n as int);
        if seg.len() > 0 {
            assert(seg.last() == v@[n - 1]);
        }
        assert(last@ =~= strip_cr(seg));
        assert forall|j: int| 0 <= j < out@.len() implies (#[trigger] out@[j])@ == strip_cr(
            all[j],
        ) by {
            if j < old_out.len() {
                assert(out@[j] == old_out[j]);
            }
        }
        assert(strings_view(out@) =~= all.map_values(|l: Seq<char>| strip_cr(l)));
    }
    out
}

pub open spec fn all_digits(s: Seq<char>) -> bool {
    forall|i: int| 0 <= i < s.len() ==> '0' <= #[trigger] s[i] && s[i] <= '9'
}

pub open spec fn decimal_value(s: Seq<char>) -> int
    decreases s.len(),
{
    if s.len() == 0 {
        0
    } else {
        decimal_value(s.drop_last()) * 10 + (s.last() as int - '0' as int)
    }
}

/// The number that `s` writes in decimal digits, if it writes one no
/// larger than `max`.
pub open spec fn decimal_spec(s: Seq<char>, max: int) -> Option<int> {
    if s.len() > 0 && all_digits(s) && decimal_value(s) <= max {
        Some(decimal_value(s))
    } else {
        None
    }
}

proof fn lemma_decimal_prefix(s: Seq<char>, j: int)
    requires
        0 <= j <= s.len(),
        all_digits(s),
    ensures
        decimal_value(s) >= decimal_value(s.take(j)) >= 0,
    decreases s.len(),
{
    if j == s.len() {
        assert(s.take(j) == s);
        if s.len() > 0 {
            lemma_decimal_prefix(s.drop_last(), j - 1);
            assert(s.drop_last().take(j - 1) == s.drop_last());
        }
    } else {
        assert(s.drop_last().take(j) == s.take(j));
        lemma_decimal_prefix(s.drop_last(), j);
    }
}

/// Reads a decimal number no larger than `max`.
pub fn parse_decimal(s: &String, max: u64) -> (r: Option<u64>)
    requires
        max <= u32::MAX,
    ensures
        match r {
            Some(v) => decimal_spec(s@, max as int) == Some(v as int),
            None => decimal_spec(s@, max as int) is None,
        },
{
    let v = chars_of(s.as_str());
    let n = v.len();
    if n == 0 {
        return None;
    }
    let mut acc: u64 = 0;
    let mut i: usize = 0;
    assert(v@.take(0) == Seq::<char>::empty());
    while i < n
        invariant
            i <= n == v@.len(),
            v@ == s@,
            max <= u32::MAX,
            all_digits(v@.take(i as int)),
            acc as int == decimal_value(v@.take(i as int)),
            acc <= max,
        decreases n - i,
    {
        let c = v[i];
        proof {
            assert(v@.take(i + 1).drop_last() == v@.take(i as int));
        }
        if c < '0' || c > '9' {
            return None;
        }
        let next: u64 = acc * 10 + (c as u64 - '0' as u64);
        assert(all_digits(v@.take(i + 1)));
        if next > max {
            proof {
                if all_digits(v@) {
                    lemma_decimal_prefix(v@, i + 1);
                }
            }
            return None;
        }
        acc = next;
        i = i + 1;
    }
    assert(v@.take(n as int) == v@);
    Some(acc)
}

} // verus!
