use vstd::prelude::*;
use crate::text::{chars_of, same_chars, string_of, trim, trimmed};

verus! {

/// The lines of `s`, split at each newline; the text after the last newline
/// is the final line (empty when `s` ends with a newline).
pub open spec fn split_lines(s: Seq<char>) -> Seq<Seq<char>>
    decreases s.len(),
{
    if s.len() == 0 {
        seq![Seq::empty()]
    } else {
        let p = split_lines(s.drop_last());
        if s.last() == '\n' {
            p.push(Seq::empty())
        } else {
            p.update(p.len() - 1, p.last().push(s.last()))
        }
    }
}

/// A line of `listing` in the sense of `str::lines`: every piece between
/// newlines, and the piece after the last newline unless it is empty.
pub open spec fn is_line(listing: Seq<char>, k: int) -> bool {
    let lines = split_lines(listing);
    0 <= k < lines.len() && (k < lines.len() - 1 || lines[k].len() > 0)
}

/// Some line of `listing`, without surrounding white space, is `name`.
pub open spec fn listed(listing: Seq<char>, name: Seq<char>) -> bool {
    exists|k: int| is_line(listing, k) && trim(#[trigger] split_lines(listing)[k]) == name
}

/// Whether the output of the store's image listing names `name`.
pub fn image_in_listing(listing: &str, name: &str) -> (r: bool)
    ensures
        r == listed(listing@, name@),
{
    let v = chars_of(listing);
    let target = chars_of(name);
    let mut cur: Vec<char> = Vec::new();
    let mut found = false;
    let mut i: usize = 0;
    proof {
        assert(v@.subrange(0, 0) == Seq::<char>::empty());
    }
    while i < v.len()
        invariant
            v@ == listing@,
            target@ == name@,
            i <= v.len(),
            split_lines(v@.subrange(0, i as int)).last() == cur@,
            split_lines(v@.subrange(0, i as int)).len() >= 1,
            found == exists|k: int|
                0 <= k < split_lines(v@.subrange(0, i as int)).len() - 1 && trim(
                    #[trigger] split_lines(v@.subrange(0, i as int))[k],
                ) == name@,
        decreases v.len() - i,
    {
        let ghost before = split_lines(v@.subrange(0, i as int));
        let c = v[i];
        assert(v@.subrange(0, i + 1).drop_last() == v@.subrange(0, i as int));
        let ghost after = split_lines(v@.subrange(0, i + 1));
        if c == '\n' {
            let t = trimmed(&cur);
            let same = same_chars(&t, &target);
            proof {
                assert(after == before.push(Seq::empty()));
                if same {
                    assert(trim(after[before.len() - 1]) == name@);
                }
                if found {
                    let k = choose|k: int|
                        0 <= k < before.len() - 1 && trim(#[trigger] before[k]) == name@;
                    assert(after[k] == before[k]);
                }
                if (exists|k: int| 0 <= k < after.len() - 1 && trim(#[trigger] after[k]) == name@) {
                    let k = choose|k: int| 0 <= k < after.len() - 1 && trim(#[trigger] after[k]) == name@;
                    if k < before.len() - 1 {
                        assert(before[k] == after[k]);
                    }
                }
            }
            found = found || same;
            cur = Vec::new();
        } else {
            cur.push(c);
            proof {
                assert(after == before.update(before.len() - 1, before.last().push(c)));
                if found {
                    let k = choose|k: int|
                        0 <= k < before.len() - 1 && trim(#[trigger] before[k]) == name@;
                    assert(after[k] == before[k]);
                }
                if (exists|k: int| 0 <= k < after.len() - 1 && trim(#[trigger] after[k]) == name@) {
                    let k = choose|k: int| 0 <= k < after.len() - 1 && trim(#[trigger] after[k]) == name@;
                    assert(before[k] == after[k]);
                }
            }
        }
        i = i + 1;
    }
    let t = trimmed(&cur);
    let same = cur.len() > 0 && same_chars(&t, &target);
    proof {
        let lines = split_lines(v@.subrange(0, i as int));
        assert(v@.subrange(0, i as int) == listing@);
        if found {
            let k = choose|k: int| 0 <= k < lines.len() - 1 && trim(#[trigger] lines[k]) == name@;
        }
        if same {
            assert(trim(lines[lines.len() - 1]) == name@);
        }
        if listed(listing@, name@) {
            let k = choose|k: int| is_line(listing@, k) && trim(#[trigger] split_lines(listing@)[k]) == name@;
        }
    }
    found || same
}

/// The container name printed by `buildah from`: its output without
/// surrounding white space; `None` when that is empty.
pub fn container_name(output: &str) -> (r: Option<String>)
    ensures
        r is Some <==> trim(output@).len() > 0,
        r is Some ==> r->Some_0@ == trim(output@),
{
    let t = trimmed(&chars_of(output));
    if t.len() == 0 {
        None
    } else {
        Some(string_of(&t))
    }
}

} // verus!
