use vstd::prelude::*;
use crate::text::{chars_of, push_char};

verus! {

pub open spec fn is_ascii_alnum(c: char) -> bool {
    let v = c as u32;
    (48 <= v && v <= 57) || (65 <= v && v <= 90) || (97 <= v && v <= 122)
}

/// Characters that a POSIX shell reads literally outside quotes, in any
/// position of a word. `wide` admits a few more punctuation marks that are
/// safe in argument position.
pub open spec fn is_plain(c: char, wide: bool) -> bool {
    is_ascii_alnum(c) || c == '/' || c == '-' || c == '_' || c == '.' || c == ':' || c == '@'
        || (wide && (c == '+' || c == '=' || c == ','))
}

pub open spec fn all_plain(s: Seq<char>, wide: bool) -> bool {
    forall|i: int| 0 <= i < s.len() ==> is_plain(#[trigger] s[i], wide)
}

/// Each single quote becomes `'\''`: close the quote, an escaped quote, reopen.
pub open spec fn escape_quotes(s: Seq<char>) -> Seq<char>
    decreases s.len(),
{
    if s.len() == 0 {
        Seq::empty()
    } else {
        escape_quotes(s.drop_last()) + if s.last() == '\'' {
            seq!['\'', '\\', '\'', '\'']
        } else {
            seq![s.last()]
        }
    }
}

/// `s` as one shell word: unchanged when it is not empty and every
/// character is plain, else wrapped in single quotes with its own single
/// quotes escaped (so the empty string becomes `''`).
pub open spec fn quoted(s: Seq<char>, wide: bool) -> Seq<char> {
    if s.len() > 0 && all_plain(s, wide) {
        s
    } else {
        seq!['\''] + escape_quotes(s) + seq!['\'']
    }
}

fn plain(c: char, wide: bool) -> (r: bool)
    ensures
        r == is_plain(c, wide),
{
    let v = c as u32;
    (48 <= v && v <= 57) || (65 <= v && v <= 90) || (97 <= v && v <= 122) || c == '/' || c == '-'
        || c == '_' || c == '.' || c == ':' || c == '@' || (wide && (c == '+' || c == '=' || c
        == ','))
}

pub(crate) fn quote_word(s: &str, wide: bool) -> (r: String)
    ensures
        r@ == quoted(s@, wide),
{
    let v = chars_of(s);
    let mut i: usize = 0;
    while i < v.len() && plain(v[i], wide)
        invariant
            v@ == s@,
            i <= v.len(),
            forall|j: int| 0 <= j < i ==> is_plain(#[trigger] v@[j], wide),
        decreases v.len() - i,
    {
        i = i + 1;
    }
    if i == v.len() && v.len() > 0 {
        return s.to_owned();
    }
    let mut r = String::new();
    push_char(&mut r, '\'');
    let mut k: usize = 0;
    while k < v.len()
        invariant
            v@ == s@,
            k <= v.len(),
            r@ == seq!['\''] + escape_quotes(v@.subrange(0, k as int)),
        decreases v.len() - k,
    {
        let c = v[k];
        assert(v@.subrange(0, k + 1).drop_last() == v@.subrange(0, k as int));
        if c == '\'' {
            push_char(&mut r, '\'');
            push_char(&mut r, '\\');
            push_char(&mut r, '\'');
            push_char(&mut r, '\'');
        } else {
            push_char(&mut r, c);
        }
        k = k + 1;
        assert(r@ == seq!['\''] + escape_quotes(v@.subrange(0, k as int)));
    }
    push_char(&mut r, '\'');
    assert(v@.subrange(0, v.len() as int) == v@);
    r
}

/// How a POSIX shell reads the characters of one word: outside quotes a
/// backslash takes the next character literally and a single quote opens a
/// quoted part, inside which everything up to the next single quote is literal.
pub open spec fn shell_read(s: Seq<char>, in_quote: bool) -> Seq<char>
    decreases s.len(),
{
    if s.len() == 0 {
        Seq::empty()
    } else if in_quote {
        if s[0] == '\'' {
            shell_read(s.drop_first(), false)
        } else {
            seq![s[0]] + shell_read(s.drop_first(), true)
        }
    } else if s[0] == '\'' {
        shell_read(s.drop_first(), true)
    } else if s[0] == '\\' && s.len() >= 2 {
        seq![s[1]] + shell_read(s.subrange(2, s.len() as int), false)
    } else {
        seq![s[0]] + shell_read(s.drop_first(), false)
    }
}

proof fn lemma_escape_concat(a: Seq<char>, b: Seq<char>)
    ensures
        escape_quotes(a + b) == escape_quotes(a) + escape_quotes(b),
    decreases b.len(),
{
    if b.len() > 0 {
        lemma_escape_concat(a, b.drop_last());
        assert((a + b).drop_last() == a + b.drop_last());
    } else {
        assert(a + b == a);
    }
}

proof fn lemma_read_escaped(s: Seq<char>, t: Seq<char>)
    ensures
        shell_read(escape_quotes(s) + t, true) == s + shell_read(t, true),
    decreases s.len(),
{
    if s.len() == 0 {
        assert(escape_quotes(s) + t == t);
        assert(s + shell_read(t, true) == shell_read(t, true));
    } else {
        let c = s[0];
        let rest = s.drop_first();
        assert(s == seq![c] + rest);
        lemma_escape_concat(seq![c], rest);
        assert(seq![c].drop_last() == Seq::<char>::empty());
        assert(escape_quotes(Seq::<char>::empty()) == Seq::<char>::empty());
        assert(seq![c].last() == c);
        let x = escape_quotes(rest) + t;
        lemma_read_escaped(rest, t);
        if c == '\'' {
            let e = seq!['\'', '\\', '\'', '\''];
            assert(Seq::<char>::empty() + e == e);
            assert(escape_quotes(seq![c]) == e);
            let w = e + x;
            let w1 = w.drop_first();
            assert(w[0] == '\'');
            assert(w1 == seq!['\\', '\'', '\''] + x);
            assert(shell_read(w, true) == shell_read(w1, false));
            assert(w1[0] == '\\' && w1[1] == '\'');
            let w2 = w1.subrange(2, w1.len() as int);
            assert(w2 == seq!['\''] + x);
            assert(shell_read(w1, false) == seq!['\''] + shell_read(w2, false));
            assert(w2[0] == '\'');
            assert(w2.drop_first() == x);
            assert(shell_read(w2, false) == shell_read(x, true));
            assert(seq![c] + (rest + shell_read(t, true)) == s + shell_read(t, true));
        } else {
            assert(Seq::<char>::empty() + seq![c] == seq![c]);
            assert(escape_quotes(seq![c]) == seq![c]);
            let w = seq![c] + x;
            assert(w[0] == c);
            assert(w.drop_first() == x);
            assert(shell_read(w, true) == seq![c] + shell_read(x, true));
            assert(seq![c] + (rest + shell_read(t, true)) == s + shell_read(t, true));
        }
        assert(escape_quotes(s) + t == escape_quotes(seq![c]) + x);
    }
}

proof fn lemma_read_plain(s: Seq<char>, wide: bool)
    requires
        all_plain(s, wide),
    ensures
        shell_read(s, false) == s,
    decreases s.len(),
{
    if s.len() > 0 {
        assert(is_plain(s[0], wide));
        assert forall|i: int| 0 <= i < s.drop_first().len() implies is_plain(
            #[trigger] s.drop_first()[i],
            wide,
        ) by {
            assert(s.drop_first()[i] == s[i + 1]);
        }
        lemma_read_plain(s.drop_first(), wide);
        assert(s == seq![s[0]] + s.drop_first());
    }
}

/// Quoting round trip: a shell reading the quoted word gets back exactly
/// the original text, whatever characters it holds.
pub proof fn law_quote_round_trip(s: Seq<char>, wide: bool)
    ensures
        shell_read(quoted(s, wide), false) == s,
{
    if s.len() > 0 && all_plain(s, wide) {
        lemma_read_plain(s, wide);
    } else {
        let body = escape_quotes(s) + seq!['\''];
        lemma_read_escaped(s, seq!['\'']);
        assert((seq!['\''] + escape_quotes(s) + seq!['\'']).drop_first() == body);
        assert(seq!['\''].drop_first() == Seq::<char>::empty());
        assert(shell_read(seq!['\''], true) == shell_read(Seq::<char>::empty(), false));
        assert(s + Seq::<char>::empty() == s);
        assert(quoted(s, wide) == seq!['\''] + escape_quotes(s) + seq!['\'']);
        assert((seq!['\''] + escape_quotes(s) + seq!['\''])[0] == '\'');
    }
}

/// Quotes `s` as one shell word for the VM control script.
pub fn shell_escape(s: &str) -> (r: String)
    ensures
        r@ == quoted(s@, false),
{
    quote_word(s, false)
}

} // verus!
