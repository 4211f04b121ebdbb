use vstd::prelude::*;
use crate::commands::views;
use crate::text::chars_of;

verus! {

/// Lexicographic order of character sequences, by code point.
pub open spec fn lex_lt(a: Seq<char>, b: Seq<char>) -> bool
    decreases a.len(),
{
    if a.len() == 0 {
        b.len() > 0
    } else if b.len() == 0 {
        false
    } else if a[0] != b[0] {
        a[0] < b[0]
    } else {
        lex_lt(a.drop_first(), b.drop_first())
    }
}

pub proof fn lemma_lex_irreflexive(a: Seq<char>)
    ensures
        !lex_lt(a, a),
    decreases a.len(),
{
    if a.len() > 0 {
        lemma_lex_irreflexive(a.drop_first());
    }
}

pub proof fn lemma_lex_transitive(a: Seq<char>, b: Seq<char>, c: Seq<char>)
    requires
        lex_lt(a, b),
        lex_lt(b, c),
    ensures
        lex_lt(a, c),
    decreases a.len(),
{
    if a.len() > 0 && b.len() > 0 && c.len() > 0 && a[0] == b[0] && b[0] == c[0] {
        lemma_lex_transitive(a.drop_first(), b.drop_first(), c.drop_first());
    }
}

pub proof fn lemma_lex_total(a: Seq<char>, b: Seq<char>)
    requires
        a != b,
    ensures
        lex_lt(a, b) || lex_lt(b, a),
    decreases a.len(),
{
    if a.len() > 0 && b.len() > 0 && a[0] == b[0] {
        if a.drop_first() == b.drop_first() {
            assert(a == seq![a[0]] + a.drop_first());
            assert(b == seq![b[0]] + b.drop_first());
        }
        lemma_lex_total(a.drop_first(), b.drop_first());
    } else if a.len() == 0 && b.len() == 0 {
        assert(a == b);
    } else if a.len() > 0 && b.len() > 0 {
        assert(a[0] != b[0]);
    }
}

pub proof fn lemma_lex_asymmetric(a: Seq<char>, b: Seq<char>)
    requires
        lex_lt(a, b),
    ensures
        !lex_lt(b, a),
{
    if lex_lt(b, a) {
        lemma_lex_transitive(a, b, a);
        lemma_lex_irreflexive(a);
    }
}

/// Strictly increasing: sorted, without repeats.
pub open spec fn strictly_sorted(s: Seq<Seq<char>>) -> bool {
    forall|i: int, j: int| 0 <= i < j < s.len() ==> lex_lt(#[trigger] s[i], #[trigger] s[j])
}

/// `a` and `b` hold the same items, in any order and number.
pub open spec fn same_items(a: Seq<Seq<char>>, b: Seq<Seq<char>>) -> bool {
    forall|x: Seq<char>| a.contains(x) <==> b.contains(x)
}

/// Two strictly sorted sequences with the same items are equal.
pub proof fn lemma_sorted_unique(a: Seq<Seq<char>>, b: Seq<Seq<char>>)
    requires
        strictly_sorted(a),
        strictly_sorted(b),
        same_items(a, b),
    ensures
        a == b,
    decreases a.len(),
{
    if a.len() == 0 {
        if b.len() > 0 {
            assert(b.contains(b[0]));
        }
        return;
    }
    if b.len() == 0 {
        assert(a.contains(a[0]));
        return;
    }
    assert(a.contains(a[0]));
    assert(b.contains(b[0]));
    let ia = choose|i: int| 0 <= i < a.len() && a[i] == b[0];
    let ib = choose|i: int| 0 <= i < b.len() && b[i] == a[0];
    if a[0] != b[0] {
        assert(ia > 0 && ib > 0);
        assert(lex_lt(a[0], a[ia]));
        assert(lex_lt(b[0], b[ib]));
        lemma_lex_asymmetric(a[0], b[0]);
    }
    let ta = a.drop_first();
    let tb = b.drop_first();
    assert forall|x: Seq<char>| ta.contains(x) <==> tb.contains(x) by {
        if ta.contains(x) {
            let i = choose|i: int| 0 <= i < ta.len() && ta[i] == x;
            assert(a[i + 1] == x);
            assert(lex_lt(a[0], x));
            lemma_lex_irreflexive(x);
            assert(b.contains(x));
            let k = choose|k: int| 0 <= k < b.len() && b[k] == x;
            assert(k != 0);
            assert(tb[k - 1] == x);
        }
        if tb.contains(x) {
            let i = choose|i: int| 0 <= i < tb.len() && tb[i] == x;
            assert(b[i + 1] == x);
            assert(lex_lt(b[0], x));
            lemma_lex_irreflexive(x);
            assert(a.contains(x));
            let k = choose|k: int| 0 <= k < a.len() && a[k] == x;
            assert(k != 0);
            assert(ta[k - 1] == x);
        }
    }
    lemma_sorted_unique(ta, tb);
    assert(a == seq![a[0]] + ta);
    assert(b == seq![b[0]] + tb);
}

/// Whether `a` comes before `b`.
pub fn chars_lt(a: &Vec<char>, b: &Vec<char>) -> (r: bool)
    ensures
        r == lex_lt(a@, b@),
{
    let mut i: usize = 0;
    assert(a@.subrange(0, a.len() as int) == a@);
    assert(b@.subrange(0, b.len() as int) == b@);
    while i < a.len() && i < b.len() && a[i] == b[i]
        invariant
            i <= a.len(),
            i <= b.len(),
            lex_lt(a@, b@) == lex_lt(a@.subrange(i as int, a.len() as int), b@.subrange(i as int, b.len() as int)),
        decreases a.len() - i,
    {
        assert(a@.subrange(i as int, a.len() as int).drop_first() == a@.subrange(i + 1, a.len() as int));
        assert(b@.subrange(i as int, b.len() as int).drop_first() == b@.subrange(i + 1, b.len() as int));
        i = i + 1;
    }
    if i == a.len() {
        i < b.len()
    } else if i == b.len() {
        false
    } else {
        a[i] < b[i]
    }
}

/// Adds `x` to the strictly sorted `out`, keeping it strictly sorted; an
/// item that is already there is not added again.
fn insert_sorted(out: &mut Vec<String>, x: &String)
    requires
        strictly_sorted(views(old(out)@)),
    ensures
        strictly_sorted(views(final(out)@)),
        forall|y: Seq<char>| views(final(out)@).contains(y) <==> (views(old(out)@).contains(y) || y == x@),
{
    let xc = chars_of(x.as_str());
    let mut k: usize = 0;
    while k < out.len() && chars_lt(&chars_of(out[k].as_str()), &xc)
        invariant
            k <= out.len(),
            out@ == old(out)@,
            xc@ == x@,
            forall|i: int| 0 <= i < k ==> lex_lt(#[trigger] views(out@)[i], x@),
        decreases out.len() - k,
    {
        k = k + 1;
    }
    let ghost v = views(out@);
    if k < out.len() {
        let same = crate::text::same_chars(&chars_of(out[k].as_str()), &xc);
        if same {
            assert(v[k as int] == x@);
            return;
        }
        proof {
            lemma_lex_total(v[k as int], x@);
        }
    }
    out.insert(k, x.clone());
    let ghost w = views(out@);
    proof {
        assert(w == v.insert(k as int, x@));
        assert forall|i: int, j: int| 0 <= i < j < w.len() implies lex_lt(#[trigger] w[i], #[trigger] w[j]) by {
            if j < k {
                assert(w[i] == v[i] && w[j] == v[j]);
            } else if j == k {
                assert(w[i] == v[i]);
            } else if i == k {
                assert(w[j] == v[j - 1]);
                if j - 1 > k {
                    assert(lex_lt(v[k as int], v[j - 1]));
                    lemma_lex_transitive(x@, v[k as int], v[j - 1]);
                }
            } else if i < k {
                assert(w[i] == v[i] && w[j] == v[j - 1]);
                if j - 1 < k {
                } else {
                    assert(lex_lt(v[i], x@));
                    if j - 1 > k {
                        assert(lex_lt(v[k as int], v[j - 1]));
                        lemma_lex_transitive(x@, v[k as int], v[j - 1]);
                    }
                    lemma_lex_transitive(v[i], x@, v[j - 1]);
                }
            } else {
                assert(w[i] == v[i - 1] && w[j] == v[j - 1]);
            }
        }
        assert forall|y: Seq<char>| w.contains(y) <==> (v.contains(y) || y == x@) by {
            if w.contains(y) {
                let i = choose|i: int| 0 <= i < w.len() && w[i] == y;
                if i < k {
                    assert(v[i] == y);
                } else if i > k {
                    assert(v[i - 1] == y);
                }
            }
            if v.contains(y) {
                let i = choose|i: int| 0 <= i < v.len() && v[i] == y;
                if i < k {
                    assert(w[i] == y);
                } else {
                    assert(w[i + 1] == y);
                }
            }
            if y == x@ {
                assert(w[k as int] == y);
            }
        }
    }
}

/// The packages in a canonical order: sorted, each once.
pub fn canonical_packages(packages: &Vec<String>) -> (r: Vec<String>)
    ensures
        strictly_sorted(views(r@)),
        same_items(views(packages@), views(r@)),
{
    let mut out: Vec<String> = Vec::new();
    let mut i: usize = 0;
    while i < packages.len()
        invariant
            i <= packages.len(),
            strictly_sorted(views(out@)),
            same_items(views(packages@.subrange(0, i as int)), views(out@)),
        decreases packages.len() - i,
    {
        let ghost before = views(out@);
        insert_sorted(&mut out, &packages[i]);
        proof {
            let p = views(packages@.subrange(0, i as int));
            let q = views(packages@.subrange(0, i + 1));
            assert(q == p.push(packages@[i as int]@));
            assert forall|y: Seq<char>| q.contains(y) <==> views(out@).contains(y) by {
                if q.contains(y) {
                    let k = choose|k: int| 0 <= k < q.len() && q[k] == y;
                    if k < p.len() {
                        assert(p[k] == y);
                    }
                }
                if p.contains(y) {
                    let k = choose|k: int| 0 <= k < p.len() && p[k] == y;
                    assert(q[k] == y);
                }
                if y == packages@[i as int]@ {
                    assert(q[i as int] == y);
                }
            }
        }
        i = i + 1;
    }
    assert(packages@.subrange(0, packages.len() as int) == packages@);
    out
}

} // verus!
