//! Key/value pair lists: query parameters and the `extras` mapping.
use crate::config::{pairs_view, opt_view};
use crate::text::strings_view;
use vstd::prelude::*;

verus! {

pub type Pairs = Seq<(Seq<char>, Seq<char>)>;

/// The value of the last pair with key `k` (later pairs override earlier ones).
pub open spec fn query_get(q: Pairs, k: Seq<char>) -> Option<Seq<char>>
    decreases q.len(),
{
    if q.len() == 0 {
        None
    } else if q.last().0 == k {
        Some(q.last().1)
    } else {
        query_get(q.drop_last(), k)
    }
}

/// Index of the first pair with key `k`.
pub open spec fn first_pos(m: Pairs, k: Seq<char>) -> Option<int>
    decreases m.len(),
{
    if m.len() == 0 {
        None
    } else {
        let p = first_pos(m.drop_last(), k);
        if p is Some {
            p
        } else if m.last().0 == k {
            Some(m.len() - 1)
        } else {
            None
        }
    }
}

/// Sets key `k` to `v`: in place where `k` is present, appended otherwise.
pub open spec fn put(m: Pairs, k: Seq<char>, v: Seq<char>) -> Pairs {
    match first_pos(m, k) {
        Some(i) => m.update(i, (k, v)),
        None => m.push((k, v)),
    }
}

/// The pairs of `q` whose key is not in `promoted`, one per key, each with
/// the last value given to it, in order of first appearance.
pub open spec fn collect_extras(q: Pairs, promoted: Seq<Seq<char>>) -> Pairs
    decreases q.len(),
{
    if q.len() == 0 {
        Seq::empty()
    } else {
        let p = collect_extras(q.drop_last(), promoted);
        if promoted.contains(q.last().0) {
            p
        } else {
            put(p, q.last().0, q.last().1)
        }
    }
}

/// No two entries share a key, and no key is in `promoted`.
pub open spec fn extras_ok(extras: Pairs, promoted: Seq<Seq<char>>) -> bool {
    &&& forall|i: int, j: int|
        0 <= i < j < extras.len() ==> #[trigger] extras[i].0 != #[trigger] extras[j].0
    &&& forall|i: int| 0 <= i < extras.len() ==> !promoted.contains(#[trigger] extras[i].0)
}

pub proof fn lemma_first_pos(m: Pairs, k: Seq<char>)
    ensures
        match first_pos(m, k) {
            Some(i) => 0 <= i < m.len() && m[i].0 == k,
            None => forall|i: int| 0 <= i < m.len() ==> #[trigger] m[i].0 != k,
        },
    decreases m.len(),
{
    if m.len() > 0 {
        lemma_first_pos(m.drop_last(), k);
        let d = m.drop_last();
        assert forall|i: int| 0 <= i < m.len() - 1 implies m[i] == #[trigger] d[i] by {}
        if first_pos(m, k) is None {
            assert forall|i: int| 0 <= i < m.len() implies #[trigger] m[i].0 != k by {
                if i < m.len() - 1 {
                    assert(d[i].0 != k);
                }
            }
        }
    }
}

proof fn lemma_first_pos_prefix(m: Pairs, k: Seq<char>, j: int)
    requires
        0 <= j <= m.len(),
        first_pos(m.take(j), k) is Some,
    ensures
        first_pos(m, k) == first_pos(m.take(j), k),
    decreases m.len(),
{
    if j == m.len() {
        assert(m.take(j) == m);
    } else {
        assert(m.drop_last().take(j) == m.take(j));
        lemma_first_pos_prefix(m.drop_last(), k, j);
    }
}

pub proof fn lemma_collect_extras_ok(q: Pairs, promoted: Seq<Seq<char>>)
    ensures
        extras_ok(collect_extras(q, promoted), promoted),
    decreases q.len(),
{
    if q.len() > 0 {
        let p = collect_extras(q.drop_last(), promoted);
        lemma_collect_extras_ok(q.drop_last(), promoted);
        if !promoted.contains(q.last().0) {
            lemma_first_pos(p, q.last().0);
            let r = put(p, q.last().0, q.last().1);
            match first_pos(p, q.last().0) {
                Some(i) => {
                    assert forall|a: int| 0 <= a < r.len() implies #[trigger] r[a].0 == p[a].0 by {}
                },
                None => {
                    assert forall|a: int| 0 <= a < p.len() implies #[trigger] r[a] == p[a] by {}
                },
            }
        }
    }
}

/// `key == lit`, as strings.
pub fn same(key: &String, lit: &str) -> (r: bool)
    ensures
        r == (key@ == lit@),
{
    let t = lit.to_owned();
    key.eq(&t)
}

/// The value of the last pair of `q` whose key is `key`.
pub fn lookup(q: &Vec<(String, String)>, key: &str) -> (r: Option<String>)
    ensures
        opt_view(r) == query_get(pairs_view(q@), key@),
{
    let ghost pv = pairs_view(q@);
    let mut i = q.len();
    assert(pv.take(q@.len() as int) == pv);
    while i > 0
        invariant
            i <= q@.len(),
            pv == pairs_view(q@),
            query_get(pv, key@) == query_get(pv.take(i as int), key@),
        decreases i,
    {
        let pair = &q[i - 1];
        proof {
            assert(pv.take(i as int).drop_last() == pv.take(i - 1));
        }
        if same(&pair.0, key) {
            return Some(pair.1.clone());
        }
        i = i - 1;
    }
    None
}

/// Whether `k` is one of `list`.
pub fn in_list(k: &String, list: &Vec<String>) -> (r: bool)
    ensures
        r == strings_view(list@).contains(k@),
{
    let mut j: usize = 0;
    while j < list.len()
        invariant
            j <= list@.len(),
            forall|a: int| 0 <= a < j ==> list@[a]@ != k@,
        decreases list@.len() - j,
    {
        if list[j].eq(k) {
            assert(strings_view(list@)[j as int] == k@);
            return true;
        }
        j = j + 1;
    }
    assert forall|a: int| 0 <= a < list@.len() implies strings_view(list@)[a] != k@ by {
        assert(list@[a]@ != k@);
    }
    false
}

/// Sets key `k` to `v` in `m`.
pub fn put_pair(m: &mut Vec<(String, String)>, k: String, v: String)
    ensures
        pairs_view(final(m)@) == put(pairs_view(old(m)@), k@, v@),
{
    let ghost pv = pairs_view(m@);
    let mut i: usize = 0;
    assert(pv.take(0) == Seq::<(Seq<char>, Seq<char>)>::empty());
    while i < m.len()
        invariant
            i <= m@.len(),
            pv == pairs_view(m@),
            m@ == old(m)@,
            first_pos(pv.take(i as int), k@) is None,
        decreases m@.len() - i,
    {
        proof {
            assert(pv.take(i + 1).drop_last() == pv.take(i as int));
        }
        if m[i].0.eq(&k) {
            proof {
                assert(first_pos(pv.take(i + 1), k@) == Some(i as int));
                lemma_first_pos_prefix(pv, k@, i + 1);
            }
            m[i] = (k, v);
            assert(pairs_view(m@) =~= put(pv, k@, v@));
            return;
        }
        i = i + 1;
    }
    assert(pv.take(m@.len() as int) == pv);
    m.push((k, v));
    assert(pairs_view(m@) =~= put(pv, k@, v@));
}

/// The extras mapping of `q`: its pairs, less those whose key is promoted.
pub fn extras_from(q: &Vec<(String, String)>, promoted: &Vec<String>) -> (r: Vec<(String, String)>)
    ensures
        pairs_view(r@) == collect_extras(pairs_view(q@), strings_view(promoted@)),
        extras_ok(pairs_view(r@), strings_view(promoted@)),
{
    let ghost pv = pairs_view(q@);
    let ghost pr = strings_view(promoted@);
    let mut out: Vec<(String, String)> = Vec::new();
    let mut i: usize = 0;
    assert(pv.take(0) == Seq::<(Seq<char>, Seq<char>)>::empty());
    while i < q.len()
        invariant
            i <= q@.len(),
            pv == pairs_view(q@),
            pr == strings_view(promoted@),
            pairs_view(out@) == collect_extras(pv.take(i as int), pr),
        decreases q@.len() - i,
    {
        proof {
            assert(pv.take(i + 1).drop_last() == pv.take(i as int));
        }
        let pair = &q[i];
        if !in_list(&pair.0, promoted) {
            put_pair(&mut out, pair.0.clone(), pair.1.clone());
        }
        i = i + 1;
    }
    assert(pv.take(q@.len() as int) == pv);
    proof {
        lemma_collect_extras_ok(pv, pr);
    }
    out
}

} // verus!
