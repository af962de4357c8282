//! Character-level helpers on strings, each proved against a spec function.
use vstd::prelude::*;

verus! {

/// `c` is `l` up to ASCII case, where `l` is lower case.
pub open spec fn matches_lower(c: char, l: char) -> bool {
    c == l || ('a' <= l && l <= 'z' && c as u32 + 32 == l as u32)
}

/// `s` begins with `p`, ignoring the ASCII case of `s`; `p` is lower case.
pub open spec fn starts_with_lower(s: Seq<char>, p: Seq<char>) -> bool {
    p.len() <= s.len() && forall|i: int| 0 <= i < p.len() ==> #[trigger] matches_lower(s[i], p[i])
}

/// `s` is `p` up to the ASCII case of `s`; `p` is lower case.
pub open spec fn equals_lower(s: Seq<char>, p: Seq<char>) -> bool {
    s.len() == p.len() && starts_with_lower(s, p)
}

/// `c` in lower case, for an ASCII letter; `c` itself otherwise.
pub open spec fn ascii_lower_char(c: char) -> char {
    if 'A' <= c && c <= 'Z' {
        ((c as u32 + 32) as u8) as char
    } else {
        c
    }
}

/// `c` in upper case, for an ASCII letter; `c` itself otherwise.
pub open spec fn ascii_upper_char(c: char) -> char {
    if 'a' <= c && c <= 'z' {
        ((c as u32 - 32) as u8) as char
    } else {
        c
    }
}

/// `s` with its ASCII letters in lower case.
pub open spec fn ascii_lower(s: Seq<char>) -> Seq<char> {
    s.map_values(|c: char| ascii_lower_char(c))
}

/// `s` with its ASCII letters in upper case.
pub open spec fn ascii_upper(s: Seq<char>) -> Seq<char> {
    s.map_values(|c: char| ascii_upper_char(c))
}

/// Every character of `p` is a lower-case ASCII letter.
pub open spec fn lower_letters(p: Seq<char>) -> bool {
    forall|i: int| 0 <= i < p.len() ==> 'a' <= #[trigger] p[i] && p[i] <= 'z'
}

/// A match against lower-case letters survives changing the case of `s`.
pub proof fn lemma_match_ignores_case(s: Seq<char>, p: Seq<char>)
    requires
        starts_with_lower(s, p),
        lower_letters(p),
    ensures
        starts_with_lower(ascii_lower(s), p),
        starts_with_lower(ascii_upper(s), p),
        ascii_lower(s).len() == s.len(),
        ascii_upper(s).len() == s.len(),
{
    assert forall|i: int| 0 <= i < p.len() implies #[trigger] matches_lower(ascii_lower(s)[i], p[i]) by {
        assert(matches_lower(s[i], p[i]));
        let u = s[i] as u32;
        if 'A' <= s[i] && s[i] <= 'Z' {
            assert((((u + 32) as u8) as char) as u32 == u + 32);
        }
    }
    assert forall|i: int| 0 <= i < p.len() implies #[trigger] matches_lower(ascii_upper(s)[i], p[i]) by {
        assert(matches_lower(s[i], p[i]));
        assert('a' <= p[i] && p[i] <= 'z');
        let u = s[i] as u32;
        if 'a' <= s[i] && s[i] <= 'z' {
            assert((((u - 32) as u8) as char) as u32 == u - 32);
        }
    }
}

/// The position of the first `c` in `s`, or the length of `s` if there is none.
pub open spec fn index_of(s: Seq<char>, c: char) -> nat
    decreases s.len(),
{
    if s.len() == 0 || s[0] == c {
        0
    } else {
        1 + index_of(s.drop_first(), c)
    }
}

/// The character of the decimal digit `d`.
pub open spec fn digit_char(d: nat) -> char {
    ((48 + d) as u8) as char
}

/// The decimal notation of `n`, without leading zeros.
pub open spec fn decimal(n: nat) -> Seq<char>
    decreases n,
{
    if n < 10 {
        seq![digit_char(n)]
    } else {
        decimal(n / 10).push(digit_char(n % 10))
    }
}

/// Any position whose prefix holds no `c`, and which holds `c` or ends `s`,
/// is `index_of(s, c)`.
pub proof fn lemma_index_of(s: Seq<char>, c: char, i: int)
    requires
        0 <= i <= s.len(),
        forall|j: int| 0 <= j < i ==> s[j] != c,
        i == s.len() || s[i] == c,
    ensures
        index_of(s, c) == i,
    decreases s.len(),
{
    if s.len() != 0 && s[0] != c {
        assert(i > 0);
        let t = s.drop_first();
        assert forall|j: int| 0 <= j < i - 1 implies t[j] != c by {
            assert(t[j] == s[j + 1]);
        }
        if i < s.len() {
            assert(t[i - 1] == s[i]);
        }
        lemma_index_of(t, c, i - 1);
    }
}

/// Whether `s` begins with the lower-case `p`, ignoring the ASCII case of `s`.
pub fn starts_with_ignore_case(s: &str, p: &str) -> (r: bool)
    ensures
        r == starts_with_lower(s@, p@),
{
    let n = s.unicode_len();
    let m = p.unicode_len();
    if m > n {
        return false;
    }
    let mut i: usize = 0;
    while i < m
        invariant
            m == p@.len(),
            n == s@.len(),
            m <= n,
            i <= m,
            forall|j: int| 0 <= j < i ==> #[trigger] matches_lower(s@[j], p@[j]),
        decreases m - i,
    {
        let c = s.get_char(i);
        let l = p.get_char(i);
        let same = c == l || ('a' <= l && l <= 'z' && (c as u32) as u64 + 32 == (l as u32) as u64);
        if !same {
            assert(!matches_lower(s@[i as int], p@[i as int]));
            return false;
        }
        i = i + 1;
    }
    true
}

/// Whether `s` is the lower-case `p`, ignoring the ASCII case of `s`.
pub fn equals_ignore_case(s: &str, p: &str) -> (r: bool)
    ensures
        r == equals_lower(s@, p@),
{
    s.unicode_len() == p.unicode_len() && starts_with_ignore_case(s, p)
}

/// The position of the first `c` in `s`, or the length of `s`.
pub fn find_char(s: &str, c: char) -> (r: usize)
    ensures
        r == index_of(s@, c),
        r <= s@.len(),
        forall|j: int| 0 <= j < r ==> s@[j] != c,
        r < s@.len() ==> s@[r as int] == c,
{
    let n = s.unicode_len();
    let mut i: usize = 0;
    while i < n
        invariant
            n == s@.len(),
            i <= n,
            forall|j: int| 0 <= j < i ==> s@[j] != c,
        decreases n - i,
    {
        if s.get_char(i) == c {
            proof {
                lemma_index_of(s@, c, i as int);
            }
            return i;
        }
        i = i + 1;
    }
    proof {
        lemma_index_of(s@, c, i as int);
    }
    i
}

/// Whether `c` occurs in `s`.
pub fn contains_char(s: &str, c: char) -> (r: bool)
    ensures
        r == s@.contains(c),
{
    let i = find_char(s, c);
    i < s.unicode_len()
}

/// Relies on `String::push`: appends one character.
#[verifier::external_body]
fn push_char(s: &mut String, c: char)
    ensures
        final(s)@ == old(s)@.push(c),
{
    s.push(c)
}

/// Appends the decimal notation of `n` to `s`.
pub fn push_decimal(s: &mut String, n: u64)
    ensures
        final(s)@ == old(s)@ + decimal(n as nat),
    decreases n,
{
    let ghost start = s@;
    if n >= 10 {
        push_decimal(s, n / 10);
    }
    let d: u8 = (n % 10) as u8;
    let c = (48u8 + d) as char;
    push_char(s, c);
    proof {
        if n >= 10 {
            assert(decimal(n as nat) == decimal((n / 10) as nat).push(digit_char((n % 10) as nat)));
            assert(s@ =~= start + decimal(n as nat));
        } else {
            assert(s@ =~= start + decimal(n as nat));
        }
    }
}

} // verus!
