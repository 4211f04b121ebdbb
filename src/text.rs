use vstd::prelude::*;

verus! {

/// Relies on `String::push`: the character is appended at the end.
#[verifier::external_body]
pub(crate) fn push_char(s: &mut String, c: char)
    ensures
        final(s)@ == old(s)@.push(c),
{
    s.push(c);
}

/// The characters of `s`, in order.
pub fn chars_of(s: &str) -> (r: Vec<char>)
    ensures
        r@ == s@,
{
    let n = s.unicode_len();
    let mut r: Vec<char> = Vec::new();
    let mut i: usize = 0;
    while i < n
        invariant
            n == s@.len(),
            i <= n,
            r@ == s@.subrange(0, i as int),
        decreases n - i,
    {
        r.push(s.get_char(i));
        i = i + 1;
    }
    assert(r@ == s@);
    r
}

/// Appends the characters of `v` to `s`.
pub fn push_all(s: &mut String, v: &Vec<char>)
    ensures
        final(s)@ == old(s)@ + v@,
{
    let mut i: usize = 0;
    while i < v.len()
        invariant
            i <= v.len(),
            s@ == old(s)@ + v@.subrange(0, i as int),
        decreases v.len() - i,
    {
        push_char(s, v[i]);
        i = i + 1;
        assert(s@ == old(s)@ + v@.subrange(0, i as int));
    }
    assert(v@.subrange(0, v.len() as int) == v@);
}

/// A string holding the characters of `v`.
pub fn string_of(v: &Vec<char>) -> (r: String)
    ensures
        r@ == v@,
{
    let mut r = String::new();
    push_all(&mut r, v);
    assert(r@ == v@);
    r
}


/// White space as Unicode's `White_Space` property lists it.
pub open spec fn is_space(c: char) -> bool {
    let v = c as u32;
    v == 32 || (9 <= v && v <= 13) || v == 0x85 || v == 0xa0 || v == 0x1680 || (0x2000 <= v
        && v <= 0x200a) || v == 0x2028 || v == 0x2029 || v == 0x202f || v == 0x205f || v == 0x3000
}

pub fn space(c: char) -> (r: bool)
    ensures
        r == is_space(c),
{
    let v = c as u32;
    v == 32 || (9 <= v && v <= 13) || v == 0x85 || v == 0xa0 || v == 0x1680 || (0x2000 <= v
        && v <= 0x200a) || v == 0x2028 || v == 0x2029 || v == 0x202f || v == 0x205f || v == 0x3000
}

pub open spec fn trim_start(s: Seq<char>) -> Seq<char>
    decreases s.len(),
{
    if s.len() > 0 && is_space(s[0]) {
        trim_start(s.drop_first())
    } else {
        s
    }
}

pub open spec fn trim_end(s: Seq<char>) -> Seq<char>
    decreases s.len(),
{
    if s.len() > 0 && is_space(s.last()) {
        trim_end(s.drop_last())
    } else {
        s
    }
}

/// `s` without leading and trailing white space.
pub open spec fn trim(s: Seq<char>) -> Seq<char> {
    trim_end(trim_start(s))
}

/// The characters of `v` without leading and trailing white space.
pub fn trimmed(v: &Vec<char>) -> (r: Vec<char>)
    ensures
        r@ == trim(v@),
{
    let n = v.len();
    let mut i: usize = 0;
    assert(v@.subrange(0, n as int) == v@);
    while i < n && space(v[i])
        invariant
            n == v@.len(),
            i <= n,
            trim_start(v@) == trim_start(v@.subrange(i as int, n as int)),
        decreases n - i,
    {
        assert(v@.subrange(i as int, n as int).drop_first() == v@.subrange(i + 1, n as int));
        i = i + 1;
    }
    let ghost t = v@.subrange(i as int, n as int);
    assert(trim_start(t) == t);
    let mut j: usize = n;
    while j > i && space(v[j - 1])
        invariant
            i <= j <= n,
            n == v@.len(),
            t == v@.subrange(i as int, n as int),
            trim_end(t) == trim_end(v@.subrange(i as int, j as int)),
        decreases j,
    {
        assert(v@.subrange(i as int, j as int).drop_last() == v@.subrange(i as int, j - 1));
        j = j - 1;
    }
    let mut r: Vec<char> = Vec::new();
    let mut k: usize = i;
    while k < j
        invariant
            i <= k <= j <= n,
            n == v@.len(),
            r@ == v@.subrange(i as int, k as int),
        decreases j - k,
    {
        r.push(v[k]);
        k = k + 1;
    }
    r
}

/// Whether `a` and `b` hold the same characters.
pub fn same_chars(a: &Vec<char>, b: &Vec<char>) -> (r: bool)
    ensures
        r == (a@ == b@),
{
    if a.len() != b.len() {
        return false;
    }
    let mut i: usize = 0;
    while i < a.len()
        invariant
            a.len() == b.len(),
            i <= a.len(),
            a@.subrange(0, i as int) == b@.subrange(0, i as int),
        decreases a.len() - i,
    {
        if a[i] != b[i] {
            assert(a@[i as int] != b@[i as int]);
            return false;
        }
        assert(a@.subrange(0, i + 1) == a@.subrange(0, i as int).push(a@[i as int]));
        assert(b@.subrange(0, i + 1) == b@.subrange(0, i as int).push(b@[i as int]));
        i = i + 1;
    }
    assert(a@ == a@.subrange(0, a.len() as int));
    assert(b@ == b@.subrange(0, b.len() as int));
    true
}

/// Whether `s` starts with `p`.
pub open spec fn starts_with(s: Seq<char>, p: Seq<char>) -> bool {
    p.len() <= s.len() && s.subrange(0, p.len() as int) == p
}

pub proof fn lemma_prefix_char(s: Seq<char>, p: Seq<char>, i: int)
    requires
        starts_with(s, p),
        0 <= i < p.len(),
    ensures
        s[i] == p[i],
{
    assert(s.subrange(0, p.len() as int)[i] == s[i]);
}

pub fn has_prefix(s: &str, p: &str) -> (r: bool)
    ensures
        r == starts_with(s@, p@),
{
    let n = s.unicode_len();
    let m = p.unicode_len();
    if m > n {
        return false;
    }
    let mut i: usize = 0;
    while i < m
        invariant
            m <= n,
            n == s@.len(),
            m == p@.len(),
            i <= m,
            s@.subrange(0, i as int) == p@.subrange(0, i as int),
        decreases m - i,
    {
        if s.get_char(i) != p.get_char(i) {
            assert(s@.subrange(0, m as int)[i as int] != p@[i as int]);
            return false;
        }
        assert(s@.subrange(0, i + 1) == s@.subrange(0, i as int).push(s@[i as int]));
        assert(p@.subrange(0, i + 1) == p@.subrange(0, i as int).push(p@[i as int]));
        i = i + 1;
    }
    assert(p@.subrange(0, m as int) == p@);
    true
}

/// The characters of `s` from position `from` on.
pub fn suffix_from(s: &str, from: usize) -> (r: String)
    requires
        from <= s@.len(),
    ensures
        r@ == s@.subrange(from as int, s@.len() as int),
{
    let n = s.unicode_len();
    let part = s.substring_char(from, n);
    part.to_owned()
}

/// Decimal digits of `n`, most significant first.
pub open spec fn decimal(n: nat) -> Seq<char>
    decreases n,
{
    if n < 10 {
        seq![digit_char(n)]
    } else {
        decimal(n / 10) + seq![digit_char(n % 10)]
    }
}

/// Lower-case hexadecimal digit for `d < 16`.
pub open spec fn digit_char(d: nat) -> char {
    if d == 0 { '0' } else if d == 1 { '1' } else if d == 2 { '2' } else if d == 3 { '3' }
    else if d == 4 { '4' } else if d == 5 { '5' } else if d == 6 { '6' } else if d == 7 { '7' }
    else if d == 8 { '8' } else if d == 9 { '9' } else if d == 10 { 'a' } else if d == 11 { 'b' }
    else if d == 12 { 'c' } else if d == 13 { 'd' } else if d == 14 { 'e' } else { 'f' }
}

fn digit(d: u64) -> (c: char)
    requires
        d < 16,
    ensures
        c == digit_char(d as nat),
{
    if d == 0 { '0' } else if d == 1 { '1' } else if d == 2 { '2' } else if d == 3 { '3' }
    else if d == 4 { '4' } else if d == 5 { '5' } else if d == 6 { '6' } else if d == 7 { '7' }
    else if d == 8 { '8' } else if d == 9 { '9' } else if d == 10 { 'a' } else if d == 11 { 'b' }
    else if d == 12 { 'c' } else if d == 13 { 'd' } else if d == 14 { 'e' } else { 'f' }
}

/// Appends the decimal form of `n` to `s`.
pub fn push_decimal(s: &mut String, n: u64)
    ensures
        final(s)@ == old(s)@ + decimal(n as nat),
{
    let mut digits: Vec<char> = Vec::new();
    let mut m: u64 = n;
    digits.insert(0, digit(m % 10));
    m = m / 10;
    assert(m > 0 ==> decimal(n as nat) == decimal(m as nat) + digits@);
    while m > 0
        invariant
            m > 0 ==> decimal(n as nat) == decimal(m as nat) + digits@,
            m == 0 ==> decimal(n as nat) == digits@,
        decreases m,
    {
        let ghost before = digits@;
        digits.insert(0, digit(m % 10));
        assert(digits@ == seq![digit_char((m % 10) as nat)] + before);
        if m < 10 {
            assert(decimal(m as nat) == seq![digit_char((m % 10) as nat)]);
        } else {
            assert(decimal(m as nat) + before == decimal((m / 10) as nat) + digits@);
        }
        m = m / 10;
    }
    push_all(s, &digits);
}

/// The `k` low hexadecimal digits of `n`, zero padded, most significant first.
pub open spec fn hex_fixed(n: nat, k: nat) -> Seq<char>
    decreases k,
{
    if k == 0 {
        Seq::empty()
    } else {
        hex_fixed(n / 16, (k - 1) as nat) + seq![digit_char(n % 16)]
    }
}

/// Appends `n` as sixteen lower-case hexadecimal digits.
pub fn push_hex16(s: &mut String, n: u64)
    ensures
        final(s)@ == old(s)@ + hex_fixed(n as nat, 16),
{
    let mut digits: Vec<char> = Vec::new();
    let mut m: u64 = n;
    let mut k: usize = 0;
    while k < 16
        invariant
            k <= 16,
            hex_fixed(n as nat, 16) == hex_fixed(m as nat, (16 - k) as nat) + digits@,
        decreases 16 - k,
    {
        let ghost before = digits@;
        digits.insert(0, digit(m % 16));
        assert(digits@ == seq![digit_char((m % 16) as nat)] + before);
        m = m / 16;
        k = k + 1;
    }
    push_all(s, &digits);
}

} // verus!
