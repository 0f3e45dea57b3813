//! The line batch driver: every non-blank line of a decoded subscription is
//! parsed on its own, and successes and failures are kept in input order.
use crate::config::{ParseError, ParseErrorView, ProxyConfig, ProxyConfigView};
use crate::dispatch::{parse_line, parse_line_spec};
use crate::payload::{decode_payload, decode_payload_spec};
use crate::text::{chars_of, is_blank, is_whitespace, split_lines, split_newlines, strip_cr, strings_view};
use vstd::prelude::*;

verus! {

/// The outcome of a batch: parsed configurations and per-line failures, each
/// with the line it came from, in input order.
pub struct BatchResult {
    pub successes: Vec<(String, ProxyConfig)>,
    pub failures: Vec<(String, ParseError)>,
}

pub open spec fn successes_view(v: Seq<(String, ProxyConfig)>) -> Seq<(Seq<char>, ProxyConfigView)> {
    v.map_values(|p: (String, ProxyConfig)| (p.0@, p.1@))
}

pub open spec fn failures_view(v: Seq<(String, ParseError)>) -> Seq<(Seq<char>, ParseErrorView)> {
    v.map_values(|p: (String, ParseError)| (p.0@, p.1@))
}

/// The lines that are not blank, in order.
pub open spec fn non_blank(lines: Seq<Seq<char>>) -> Seq<Seq<char>>
    decreases lines.len(),
{
    if lines.len() == 0 {
        Seq::empty()
    } else if is_blank(lines.last()) {
        non_blank(lines.drop_last())
    } else {
        non_blank(lines.drop_last()).push(lines.last())
    }
}

/// The first `cap` lines, or all of them without a cap.
pub open spec fn capped(lines: Seq<Seq<char>>, cap: Option<usize>) -> Seq<Seq<char>> {
    match cap {
        Some(n) => if n < lines.len() {
            lines.take(n as int)
        } else {
            lines
        },
        None => lines,
    }
}

/// The lines of `text` that are parsed: within the cap, and not blank.
pub open spec fn candidates(text: Seq<char>, cap: Option<usize>) -> Seq<Seq<char>> {
    non_blank(capped(split_newlines(text).map_values(|l: Seq<char>| strip_cr(l)), cap))
}

/// The lines that parse, each with its configuration, in order.
pub open spec fn ok_part(lines: Seq<Seq<char>>) -> Seq<(Seq<char>, ProxyConfigView)>
    decreases lines.len(),
{
    if lines.len() == 0 {
        Seq::empty()
    } else {
        let prev = ok_part(lines.drop_last());
        match parse_line_spec(lines.last()) {
            Ok(c) => prev.push((lines.last(), c)),
            Err(_) => prev,
        }
    }
}

/// The lines that fail, each with its error, in order.
pub open spec fn err_part(lines: Seq<Seq<char>>) -> Seq<(Seq<char>, ParseErrorView)>
    decreases lines.len(),
{
    if lines.len() == 0 {
        Seq::empty()
    } else {
        let prev = err_part(lines.drop_last());
        match parse_line_spec(lines.last()) {
            Ok(_) => prev,
            Err(e) => prev.push((lines.last(), e)),
        }
    }
}

pub fn is_blank_line(s: &String) -> (r: bool)
    ensures
        r == is_blank(s@),
{
    let v = chars_of(s.as_str());
    let mut i: usize = 0;
    while i < v.len()
        invariant
            i <= v@.len(),
            v@ == s@,
            forall|j: int| 0 <= j < i ==> crate::text::is_ws(#[trigger] v@[j]),
        decreases v@.len() - i,
    {
        if !is_whitespace(v[i]) {
            return false;
        }
        i = i + 1;
    }
    true
}

/// The lines of `text` that a batch parses.
pub fn candidate_lines(text: &str, cap: Option<usize>) -> (r: Vec<String>)
    ensures
        strings_view(r@) == candidates(text@, cap),
{
    let all = split_lines(text);
    let ghost lines = strings_view(all@);
    let n = match cap {
        Some(c) => if c < all.len() {
            c
        } else {
            all.len()
        },
        None => all.len(),
    };
    let ghost cl = capped(lines, cap);
    assert(cl == lines.take(n as int));
    let mut out: Vec<String> = Vec::new();
    let mut i: usize = 0;
    assert(cl.take(0) == Seq::<Seq<char>>::empty());
    while i < n
        invariant
            i <= n <= all@.len(),
            lines == strings_view(all@),
            cl == lines.take(n as int),
            strings_view(out@) == non_blank(cl.take(i as int)),
        decreases n - i,
    {
        proof {
            assert(cl.take(i + 1).drop_last() == cl.take(i as int));
        }
        if !is_blank_line(&all[i]) {
            out.push(all[i].clone());
            assert(strings_view(out@) =~= non_blank(cl.take(i + 1)));
        }
        i = i + 1;
    }
    assert(cl.take(n as int) == cl);
    out
}

/// Parses each line on its own; one line's failure does not stop the others.
pub fn parse_lines(lines: &Vec<String>) -> (r: BatchResult)
    ensures
        successes_view(r.successes@) == ok_part(strings_view(lines@)),
        failures_view(r.failures@) == err_part(strings_view(lines@)),
{
    let ghost ls = strings_view(lines@);
    let mut successes: Vec<(String, ProxyConfig)> = Vec::new();
    let mut failures: Vec<(String, ParseError)> = Vec::new();
    let mut i: usize = 0;
    assert(ls.take(0) == Seq::<Seq<char>>::empty());
    while i < lines.len()
        invariant
            i <= lines@.len(),
            ls == strings_view(lines@),
            successes_view(successes@) == ok_part(ls.take(i as int)),
            failures_view(failures@) == err_part(ls.take(i as int)),
        decreases lines@.len() - i,
    {
        proof {
            assert(ls.take(i + 1).drop_last() == ls.take(i as int));
        }
        let line = &lines[i];
        match parse_line(line.as_str()) {
            Ok(c) => {
                successes.push((line.clone(), c));
                assert(successes_view(successes@) =~= ok_part(ls.take(i + 1)));
            },
            Err(e) => {
                failures.push((line.clone(), e));
                assert(failures_view(failures@) =~= err_part(ls.take(i + 1)));
            },
        }
        i = i + 1;
    }
    assert(ls.take(lines@.len() as int) == ls);
    BatchResult { successes, failures }
}

/// Parses the lines of decoded subscription text, up to `cap` lines.
pub fn parse_batch(text: &str, cap: Option<usize>) -> (r: BatchResult)
    ensures
        successes_view(r.successes@) == ok_part(candidates(text@, cap)),
        failures_view(r.failures@) == err_part(candidates(text@, cap)),
{
    let lines = candidate_lines(text, cap);
    parse_lines(&lines)
}

/// Decodes a raw subscription body and parses its lines, up to `cap` lines.
pub fn parse_subscription(body: &str, cap: Option<usize>) -> (r: BatchResult)
    ensures
        successes_view(r.successes@) == ok_part(candidates(decode_payload_spec(body@), cap)),
        failures_view(r.failures@) == err_part(candidates(decode_payload_spec(body@), cap)),
{
    let text = decode_payload(body);
    parse_batch(text.as_str(), cap)
}

} // verus!
