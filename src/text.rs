use vstd::prelude::*;

verus! {

/// Whether `c` has the Unicode `White_Space` property.
pub open spec fn is_ws(c: char) -> bool {
    ('\u{9}' <= c && c <= '\u{d}') || c == ' ' || c == '\u{85}' || c == '\u{a0}' || c
        == '\u{1680}' || ('\u{2000}' <= c && c <= '\u{200a}') || c == '\u{2028}' || c
        == '\u{2029}' || c == '\u{202f}' || c == '\u{205f}' || c == '\u{3000}'
}

/// The characters that a trim removes: whitespace, or underscores.
pub open spec fn strippable(c: char, underscores: bool) -> bool {
    if underscores {
        c == '_'
    } else {
        is_ws(c)
    }
}

pub open spec fn strip_front(s: Seq<char>, underscores: bool) -> Seq<char>
    decreases s.len(),
{
    if s.len() > 0 && strippable(s[0], underscores) {
        strip_front(s.drop_first(), underscores)
    } else {
        s
    }
}

pub open spec fn strip_back(s: Seq<char>, underscores: bool) -> Seq<char>
    decreases s.len(),
{
    if s.len() > 0 && strippable(s.last(), underscores) {
        strip_back(s.drop_last(), underscores)
    } else {
        s
    }
}

/// `s` without its leading and trailing whitespace, as `str::trim` gives it.
pub open spec fn trimmed(s: Seq<char>) -> Seq<char> {
    strip_back(strip_front(s, false), false)
}

pub open spec fn lower_char(c: char) -> char {
    if 'A' <= c && c <= 'Z' {
        ((c as u8) + 32) as char
    } else {
        c
    }
}

pub open spec fn upper_char(c: char) -> char {
    if 'a' <= c && c <= 'z' {
        ((c as u8) - 32) as char
    } else {
        c
    }
}

pub open spec fn ascii_lower(s: Seq<char>) -> Seq<char> {
    s.map_values(|c: char| lower_char(c))
}

pub open spec fn ascii_upper(s: Seq<char>) -> Seq<char> {
    s.map_values(|c: char| upper_char(c))
}

pub open spec fn has_prefix(s: Seq<char>, p: Seq<char>) -> bool {
    p.len() <= s.len() && s.subrange(0, p.len() as int) == p
}

/// Whether `p` occurs in `s` as a contiguous run.
pub open spec fn has_infix(s: Seq<char>, p: Seq<char>) -> bool {
    exists|i: int| 0 <= i && i + p.len() <= s.len() && #[trigger] s.subrange(i, i + p.len()) == p
}

/// The decimal digits of `n`, most significant first, without leading zeros.
pub open spec fn decimal(n: nat) -> Seq<char>
    decreases n,
{
    if n < 10 {
        seq![digit_char(n)]
    } else {
        decimal(n / 10).push(digit_char(n % 10))
    }
}

pub open spec fn digit_char(d: nat) -> char {
    if d < 10 {
        (d + 48) as char
    } else {
        '?'
    }
}

/// `decimal(n)` with leading zeros up to at least three digits.
pub open spec fn pad3(n: nat) -> Seq<char> {
    if n < 10 {
        seq!['0', '0'] + decimal(n)
    } else if n < 100 {
        seq!['0'] + decimal(n)
    } else {
        decimal(n)
    }
}

/// Appends one character.
/// Relies on `String::push`: the character is added at the end.
#[verifier::external_body]
pub(crate) fn push_char(s: &mut String, c: char)
    ensures
        final(s)@ == old(s)@.push(c),
{
    s.push(c);
}

/// The characters of `s`.
pub fn to_chars(s: &str) -> (r: Vec<char>)
    ensures
        r@ == s@,
{
    let n = s.unicode_len();
    let mut out: Vec<char> = Vec::new();
    let mut i: usize = 0;
    while i < n
        invariant
            n == s@.len(),
            i <= n,
            out@ == s@.subrange(0, i as int),
        decreases n - i,
    {
        out.push(s.get_char(i));
        i = i + 1;
    }
    assert(out@ == s@.subrange(0, n as int));
    out
}

/// The string made of the characters `v[from..to]`.
pub fn from_chars(v: &Vec<char>, from: usize, to: usize) -> (r: String)
    requires
        from <= to <= v@.len(),
    ensures
        r@ == v@.subrange(from as int, to as int),
{
    let mut out = String::new();
    let mut i: usize = from;
    while i < to
        invariant
            from <= i <= to <= v@.len(),
            out@ == v@.subrange(from as int, i as int),
        decreases to - i,
    {
        push_char(&mut out, v[i]);
        assert(v@.subrange(from as int, i + 1) == v@.subrange(from as int, i as int).push(v@[i as int]));
        i = i + 1;
    }
    out
}

pub fn is_whitespace(c: char) -> (r: bool)
    ensures
        r == is_ws(c),
{
    ('\u{9}' <= c && c <= '\u{d}') || c == ' ' || c == '\u{85}' || c == '\u{a0}' || c
        == '\u{1680}' || ('\u{2000}' <= c && c <= '\u{200a}') || c == '\u{2028}' || c
        == '\u{2029}' || c == '\u{202f}' || c == '\u{205f}' || c == '\u{3000}'
}

fn is_strippable(c: char, underscores: bool) -> (r: bool)
    ensures
        r == strippable(c, underscores),
{
    if underscores {
        c == '_'
    } else {
        is_whitespace(c)
    }
}

proof fn lemma_strip_front_step(s: Seq<char>, i: int, underscores: bool)
    requires
        0 <= i < s.len(),
        strippable(s[i], underscores),
    ensures
        strip_front(s.subrange(i, s.len() as int), underscores) == strip_front(
            s.subrange(i + 1, s.len() as int),
            underscores,
        ),
{
    assert(s.subrange(i, s.len() as int).drop_first() == s.subrange(i + 1, s.len() as int));
}

proof fn lemma_strip_back_step(s: Seq<char>, j: int, underscores: bool)
    requires
        0 < j <= s.len(),
        strippable(s[j - 1], underscores),
    ensures
        strip_back(s.subrange(0, j), underscores) == strip_back(s.subrange(0, j - 1), underscores),
{
    assert(s.subrange(0, j).drop_last() == s.subrange(0, j - 1));
}

/// Bounds `(a, b)` such that `v[a..b]` is `strip_back(strip_front(v))`.
pub fn trim_bounds(v: &Vec<char>, underscores: bool) -> (r: (usize, usize))
    ensures
        r.0 <= r.1 <= v@.len(),
        v@.subrange(r.0 as int, r.1 as int) == strip_back(strip_front(v@, underscores), underscores),
{
    let n = v.len();
    let mut a: usize = 0;
    assert(v@.subrange(0, n as int) == v@);
    while a < n && is_strippable(v[a], underscores)
        invariant
            n == v@.len(),
            a <= n,
            strip_front(v@, underscores) == strip_front(v@.subrange(a as int, n as int), underscores),
        decreases n - a,
    {
        proof {
            lemma_strip_front_step(v@, a as int, underscores);
        }
        a = a + 1;
    }
    let ghost front = v@.subrange(a as int, n as int);
    proof {
        assert(v@.subrange(0, n as int) == v@);
        if a < n {
            assert(front[0] == v@[a as int]);
        }
        assert(strip_front(front, underscores) == front);
    }
    let mut b: usize = n;
    while b > a && is_strippable(v[b - 1], underscores)
        invariant
            n == v@.len(),
            a <= b <= n,
            front == v@.subrange(a as int, n as int),
            strip_back(front, underscores) == strip_back(v@.subrange(a as int, b as int), underscores),
        decreases b - a,
    {
        proof {
            let t = v@.subrange(a as int, b as int);
            lemma_strip_back_step(t, (b - a) as int, underscores);
            assert(t.subrange(0, (b - a) as int) == t);
            assert(t.subrange(0, (b - a - 1) as int) == v@.subrange(a as int, b - 1));
        }
        b = b - 1;
    }
    proof {
        let t = v@.subrange(a as int, b as int);
        if b > a {
            assert(t.last() == v@[b - 1]);
        }
        assert(strip_back(t, underscores) == t);
    }
    (a, b)
}

/// `s` with leading and trailing whitespace removed.
pub fn trim(s: &str) -> (r: String)
    ensures
        r@ == trimmed(s@),
{
    let v = to_chars(s);
    let (a, b) = trim_bounds(&v, false);
    from_chars(&v, a, b)
}

/// Whether two character runs are equal.
pub fn chars_eq(a: &Vec<char>, b: &str) -> (r: bool)
    ensures
        r == (a@ == b@),
{
    let bv = to_chars(b);
    if a.len() != bv.len() {
        return false;
    }
    let mut i: usize = 0;
    while i < a.len()
        invariant
            bv@ == b@,
            a@.len() == bv@.len(),
            i <= a@.len(),
            a@.subrange(0, i as int) == bv@.subrange(0, i as int),
        decreases a@.len() - i,
    {
        if a[i] != bv[i] {
            assert(a@.subrange(0, i + 1)[i as int] != bv@.subrange(0, i + 1)[i as int]);
            return false;
        }
        assert(a@.subrange(0, i + 1) == a@.subrange(0, i as int).push(a@[i as int]));
        assert(bv@.subrange(0, i + 1) == bv@.subrange(0, i as int).push(bv@[i as int]));
        i = i + 1;
    }
    assert(a@ == a@.subrange(0, i as int));
    assert(bv@ == bv@.subrange(0, i as int));
    true
}

/// Whether `a` and `b` hold the same characters.
pub fn str_eq(a: &str, b: &str) -> (r: bool)
    ensures
        r == (a@ == b@),
{
    let av = to_chars(a);
    chars_eq(&av, b)
}

/// Whether `p` occurs in `s` starting at `i`.
fn occurs_at(s: &Vec<char>, p: &Vec<char>, i: usize) -> (r: bool)
    requires
        i + p@.len() <= s@.len(),
    ensures
        r == (s@.subrange(i as int, i + p@.len()) == p@),
{
    let n = s.len();
    let mut k: usize = 0;
    while k < p.len()
        invariant
            n == s@.len(),
            i + p@.len() <= s@.len(),
            k <= p@.len(),
            s@.subrange(i as int, i + k) == p@.subrange(0, k as int),
        decreases p@.len() - k,
    {
        if s[i + k] != p[k] {
            assert(s@.subrange(i as int, i + p@.len())[k as int] != p@[k as int]);
            return false;
        }
        assert(s@.subrange(i as int, i + k + 1) == s@.subrange(i as int, i + k).push(s@[i + k]));
        assert(p@.subrange(0, k + 1) == p@.subrange(0, k as int).push(p@[k as int]));
        k = k + 1;
    }
    assert(p@ == p@.subrange(0, k as int));
    true
}

/// Whether `p` occurs in `s`.
pub fn chars_contain(s: &Vec<char>, p: &str) -> (r: bool)
    ensures
        r == has_infix(s@, p@),
{
    let pv = to_chars(p);
    if pv.len() > s.len() {
        return false;
    }
    if pv.len() == 0 {
        assert(s@.subrange(0, 0 + p@.len() as int) == p@);
        return true;
    }
    let n = s.len();
    let last = n - pv.len();
    let mut i: usize = 0;
    while i <= last
        invariant
            pv@ == p@,
            pv@.len() >= 1,
            n == s@.len(),
            last + pv@.len() == s@.len(),
            i <= last + 1,
            forall|j: int| 0 <= j < i ==> #[trigger] s@.subrange(j, j + pv@.len()) != pv@,
        decreases last + 1 - i,
    {
        if occurs_at(s, &pv, i) {
            return true;
        }
        i = i + 1;
    }
    false
}

/// Whether `s` starts with `p`.
pub fn chars_start_with(s: &Vec<char>, p: &str) -> (r: bool)
    ensures
        r == has_prefix(s@, p@),
{
    let pv = to_chars(p);
    if pv.len() > s.len() {
        return false;
    }
    occurs_at(s, &pv, 0)
}

/// The ASCII lower-case form of `v`.
pub fn to_ascii_lower(v: &Vec<char>) -> (r: Vec<char>)
    ensures
        r@ == ascii_lower(v@),
{
    let mut out: Vec<char> = Vec::new();
    let mut i: usize = 0;
    while i < v.len()
        invariant
            i <= v@.len(),
            out@ == ascii_lower(v@.subrange(0, i as int)),
        decreases v@.len() - i,
    {
        let c = v[i];
        let d = if 'A' <= c && c <= 'Z' {
            ((c as u8) + 32) as char
        } else {
            c
        };
        out.push(d);
        assert(v@.subrange(0, i + 1) == v@.subrange(0, i as int).push(c));
        i = i + 1;
    }
    assert(v@.subrange(0, i as int) == v@);
    out
}

/// The ASCII upper-case form of `v`.
pub fn to_ascii_upper(v: &Vec<char>) -> (r: Vec<char>)
    ensures
        r@ == ascii_upper(v@),
{
    let mut out: Vec<char> = Vec::new();
    let mut i: usize = 0;
    while i < v.len()
        invariant
            i <= v@.len(),
            out@ == ascii_upper(v@.subrange(0, i as int)),
        decreases v@.len() - i,
    {
        let c = v[i];
        let d = if 'a' <= c && c <= 'z' {
            ((c as u8) - 32) as char
        } else {
            c
        };
        out.push(d);
        assert(v@.subrange(0, i + 1) == v@.subrange(0, i as int).push(c));
        i = i + 1;
    }
    assert(v@.subrange(0, i as int) == v@);
    out
}

/// Appends the decimal digits of `n` to `s`.
pub fn push_decimal(s: &mut String, n: u64)
    ensures
        final(s)@ == old(s)@ + decimal(n as nat),
    decreases n,
{
    if n < 10 {
        push_char(s, ((n as u8) + 48) as char);
        assert(old(s)@.push(digit_char(n as nat)) == old(s)@ + seq![digit_char(n as nat)]);
    } else {
        push_decimal(s, n / 10);
        push_char(s, (((n % 10) as u8) + 48) as char);
        assert(old(s)@ + decimal((n / 10) as nat).push(digit_char((n % 10) as nat)) == (old(s)@
            + decimal((n / 10) as nat)).push(digit_char((n % 10) as nat)));
    }
}

/// Appends `n` in decimal, zero-padded to at least three digits.
pub fn push_pad3(s: &mut String, n: u64)
    ensures
        final(s)@ == old(s)@ + pad3(n as nat),
{
    if n < 10 {
        push_char(s, '0');
        push_char(s, '0');
        assert(old(s)@.push('0').push('0') == old(s)@ + seq!['0', '0']);
    } else if n < 100 {
        push_char(s, '0');
        assert(old(s)@.push('0') == old(s)@ + seq!['0']);
    }
    push_decimal(s, n);
    assert(s@ == old(s)@ + pad3(n as nat));
}

} // verus!
