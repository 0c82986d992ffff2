//! Small verified helpers on strings: case folding for ASCII letters,
//! prefix and substring tests, and whitespace trimming.
//!
//! Identifiers in this crate (sensor ids, driver names, bus types, port
//! paths) are compared with these helpers, so their contracts are stated
//! over the character sequences of the inputs.

use vstd::prelude::*;

verus! {

/// The scalar value of `c` with an ASCII upper-case letter folded to lower case.
pub open spec fn lower_scalar(c: char) -> u32 {
    if 65 <= c as u32 <= 90 {
        (c as u32 + 32) as u32
    } else {
        c as u32
    }
}

/// The sequence of case-folded scalar values of a character sequence.
pub open spec fn lower_scalars(s: Seq<char>) -> Seq<u32> {
    Seq::new(s.len(), |i: int| lower_scalar(s[i]))
}

/// Case-fold one character at run time.
fn lower_char_scalar(c: char) -> (r: u32)
    ensures
        r == lower_scalar(c),
{
    let u: u32 = c as u32;
    if 65 <= u && u <= 90 {
        u + 32
    } else {
        u
    }
}

/// True when `s` and `t` are equal up to ASCII case.
pub fn eq_ignore_ascii_case(s: &str, t: &str) -> (r: bool)
    ensures
        r == (lower_scalars(s@) == lower_scalars(t@)),
{
    let n: usize = s.unicode_len();
    let m: usize = t.unicode_len();
    if n != m {
        assert(lower_scalars(s@).len() != lower_scalars(t@).len());
        return false;
    }
    let mut i: usize = 0;
    while i < n
        invariant
            n == s@.len(),
            n == t@.len(),
            i <= n,
            forall|j: int| 0 <= j < i ==> lower_scalar(s@[j]) == lower_scalar(t@[j]),
        decreases n - i,
    {
        let a = lower_char_scalar(s.get_char(i));
        let b = lower_char_scalar(t.get_char(i));
        if a != b {
            assert(lower_scalars(s@)[i as int] != lower_scalars(t@)[i as int]);
            return false;
        }
        i = i + 1;
    }
    assert(lower_scalars(s@) =~= lower_scalars(t@));
    true
}

/// True when `s` and `t` are the same character sequence.
pub fn str_eq(s: &str, t: &str) -> (r: bool)
    ensures
        r == (s@ == t@),
{
    let n: usize = s.unicode_len();
    let m: usize = t.unicode_len();
    if n != m {
        return false;
    }
    let mut i: usize = 0;
    while i < n
        invariant
            n == s@.len(),
            n == t@.len(),
            i <= n,
            forall|j: int| 0 <= j < i ==> s@[j] == t@[j],
        decreases n - i,
    {
        if s.get_char(i) != t.get_char(i) {
            return false;
        }
        i = i + 1;
    }
    assert(s@ =~= t@);
    true
}

/// True when `p` is a prefix of `s`.
pub open spec fn is_prefix_of(p: Seq<char>, s: Seq<char>) -> bool {
    p.len() <= s.len() && s.subrange(0, p.len() as int) == p
}

/// True when the case-folded `p` is a prefix of the case-folded `s`.
pub open spec fn is_prefix_of_ignore_case(p: Seq<char>, s: Seq<char>) -> bool {
    p.len() <= s.len() && lower_scalars(s.subrange(0, p.len() as int)) == lower_scalars(p)
}

/// True when `s` starts with `p`, compared exactly.
pub fn starts_with(s: &str, p: &str) -> (r: bool)
    ensures
        r == is_prefix_of(p@, s@),
{
    let n: usize = s.unicode_len();
    let m: usize = p.unicode_len();
    if m > n {
        return false;
    }
    let mut i: usize = 0;
    while i < m
        invariant
            n == s@.len(),
            m == p@.len(),
            m <= n,
            i <= m,
            forall|j: int| 0 <= j < i ==> s@[j] == p@[j],
        decreases m - i,
    {
        if s.get_char(i) != p.get_char(i) {
            assert(s@.subrange(0, m as int)[i as int] != p@[i as int]);
            return false;
        }
        i = i + 1;
    }
    assert(s@.subrange(0, m as int) =~= p@);
    true
}

/// True when `s` starts with `p`, up to ASCII case.
pub fn starts_with_ignore_ascii_case(s: &str, p: &str) -> (r: bool)
    ensures
        r == is_prefix_of_ignore_case(p@, s@),
{
    let n: usize = s.unicode_len();
    let m: usize = p.unicode_len();
    if m > n {
        return false;
    }
    let mut i: usize = 0;
    while i < m
        invariant
            n == s@.len(),
            m == p@.len(),
            m <= n,
            i <= m,
            forall|j: int| 0 <= j < i ==> lower_scalar(s@[j]) == lower_scalar(p@[j]),
        decreases m - i,
    {
        let a = lower_char_scalar(s.get_char(i));
        let b = lower_char_scalar(p.get_char(i));
        if a != b {
            assert(lower_scalars(s@.subrange(0, m as int))[i as int]
                != lower_scalars(p@)[i as int]);
            return false;
        }
        i = i + 1;
    }
    assert(lower_scalars(s@.subrange(0, m as int)) =~= lower_scalars(p@));
    true
}

/// True when `p` occurs in `s` at offset `k`.
pub open spec fn occurs_at(s: Seq<char>, p: Seq<char>, k: int) -> bool {
    0 <= k && k + p.len() <= s.len() && s.subrange(k, k + p.len() as int) == p
}

/// True when `p` occurs somewhere in `s`.
pub open spec fn contains_seq(s: Seq<char>, p: Seq<char>) -> bool {
    exists|k: int| occurs_at(s, p, k)
}

/// True when `s` matches `p` at offset `k`, compared exactly.
fn matches_at(s: &str, p: &str, k: usize) -> (r: bool)
    requires
        k + p@.len() <= s@.len(),
    ensures
        r == occurs_at(s@, p@, k as int),
{
    let n: usize = s.unicode_len();
    let m: usize = p.unicode_len();
    let mut i: usize = 0;
    while i < m
        invariant
            n == s@.len(),
            m == p@.len(),
            k + m <= n,
            i <= m,
            forall|j: int| 0 <= j < i ==> s@[k + j] == p@[j],
        decreases m - i,
    {
        if s.get_char(k + i) != p.get_char(i) {
            assert(s@.subrange(k as int, k + m as int)[i as int] != p@[i as int]);
            return false;
        }
        i = i + 1;
    }
    assert(s@.subrange(k as int, k + m as int) =~= p@);
    true
}

/// True when `s` contains `p` as a substring.
pub fn contains_str(s: &str, p: &str) -> (r: bool)
    ensures
        r == contains_seq(s@, p@),
{
    let n: usize = s.unicode_len();
    let m: usize = p.unicode_len();
    if m > n {
        assert(forall|k: int| !occurs_at(s@, p@, k));
        return false;
    }
    if m == 0 {
        assert(occurs_at(s@, p@, 0)) by {
            assert(s@.subrange(0, 0) =~= p@);
        }
        return true;
    }
    let mut k: usize = 0;
    while k < n - m + 1
        invariant
            n == s@.len(),
            m == p@.len(),
            1 <= m <= n,
            k <= n - m + 1,
            forall|j: int| 0 <= j < k ==> !occurs_at(s@, p@, j),
        decreases n - m + 1 - k,
    {
        if matches_at(s, p, k) {
            return true;
        }
        k = k + 1;
    }
    assert(forall|j: int| occurs_at(s@, p@, j) ==> 0 <= j <= n - m);
    false
}

/// True for the ASCII whitespace characters recognised by the trimmer.
pub open spec fn is_ascii_space(c: char) -> bool {
    c == ' ' || c == '\t' || c == '\r' || c == '\n'
}

fn is_space(c: char) -> (r: bool)
    ensures
        r == is_ascii_space(c),
{
    c == ' ' || c == '\t' || c == '\r' || c == '\n'
}

/// `s` without its leading ASCII whitespace.
pub open spec fn spec_ltrim(s: Seq<char>) -> Seq<char>
    decreases s.len(),
{
    if s.len() > 0 && is_ascii_space(s[0]) {
        spec_ltrim(s.drop_first())
    } else {
        s
    }
}

/// `s` without its trailing ASCII whitespace.
pub open spec fn spec_rtrim(s: Seq<char>) -> Seq<char>
    decreases s.len(),
{
    if s.len() > 0 && is_ascii_space(s.last()) {
        spec_rtrim(s.drop_last())
    } else {
        s
    }
}

/// `s` without leading and trailing ASCII whitespace.
pub open spec fn spec_trimmed(s: Seq<char>) -> Seq<char> {
    spec_rtrim(spec_ltrim(s))
}

/// Dropping leading whitespace equals skipping up to the first character
/// that is not whitespace.
proof fn lemma_ltrim_skip(s: Seq<char>, a: int)
    requires
        0 <= a <= s.len(),
        forall|j: int| 0 <= j < a ==> is_ascii_space(s[j]),
        a < s.len() ==> !is_ascii_space(s[a]),
    ensures
        spec_ltrim(s) == s.skip(a),
    decreases a,
{
    if a == 0 {
        assert(s.skip(0) =~= s);
    } else {
        assert(is_ascii_space(s[0]));
        lemma_ltrim_skip(s.drop_first(), a - 1);
        assert(s.drop_first().skip(a - 1) =~= s.skip(a));
    }
}

/// Dropping trailing whitespace equals taking up to the last character
/// that is not whitespace.
proof fn lemma_rtrim_take(s: Seq<char>, b: int)
    requires
        0 <= b <= s.len(),
        forall|j: int| b <= j < s.len() ==> is_ascii_space(s[j]),
        b > 0 ==> !is_ascii_space(s[b - 1]),
    ensures
        spec_rtrim(s) == s.take(b),
    decreases s.len() - b,
{
    if b == s.len() {
        assert(s.take(b) =~= s);
        if s.len() > 0 {
            assert(!is_ascii_space(s.last()));
        }
    } else {
        assert(is_ascii_space(s.last()));
        lemma_rtrim_take(s.drop_last(), b);
        assert(s.drop_last().take(b) =~= s.take(b));
    }
}

/// `s` with leading and trailing ASCII whitespace removed.
pub fn trim_ascii(s: &str) -> (r: &str)
    ensures
        r@ == spec_trimmed(s@),
{
    let n: usize = s.unicode_len();
    let mut a: usize = 0;
    while a < n && is_space(s.get_char(a))
        invariant
            n == s@.len(),
            a <= n,
            forall|j: int| 0 <= j < a ==> is_ascii_space(s@[j]),
        decreases n - a,
    {
        a = a + 1;
    }
    proof {
        lemma_ltrim_skip(s@, a as int);
    }
    if a == n {
        let r = s.substring_char(n, n);
        proof {
            assert(s@.skip(n as int).len() == 0);
            assert(spec_rtrim(s@.skip(n as int)) =~= s@.subrange(n as int, n as int));
        }
        return r;
    }
    let mut b: usize = n;
    while b > a && is_space(s.get_char(b - 1))
        invariant
            n == s@.len(),
            a < n,
            a <= b <= n,
            !is_ascii_space(s@[a as int]),
            forall|j: int| b <= j < n ==> is_ascii_space(s@[j]),
        decreases b,
    {
        b = b - 1;
    }
    let r = s.substring_char(a, b);
    proof {
        let t = s@.skip(a as int);
        assert(b - a <= t.len());
        assert(forall|j: int| b - a <= j < t.len() ==> is_ascii_space(t[j]));
        assert(b > a);
        assert(!is_ascii_space(s@[b - 1]));
        assert(t[b - a - 1] == s@[b - 1]);
        lemma_rtrim_take(t, b - a);
        assert(t.take(b - a) =~= s@.subrange(a as int, b as int));
    }
    r
}

} // verus!
