//! Operations on text, stated over sequences of characters.

use vstd::prelude::*;
use vstd::std_specs::iter::IteratorSpec;
use vstd::string::*;

verus! {

broadcast use vstd::string::group_string_axioms;

/// `String::push` appends one character to the end of the string.
pub assume_specification[ String::push ](s: &mut String, ch: char)
    ensures
        final(s)@ == old(s)@.push(ch),
;

/// The characters of `s`, in order.
pub fn chars_of(s: &str) -> (r: Vec<char>)
    ensures
        r@ == s@,
{
    let mut out: Vec<char> = Vec::new();
    let mut it = s.chars();
    loop
        invariant
            out@ + it.remaining() == s@,
            it.decrease() is Some,
        ensures
            out@ == s@,
        decreases it.decrease()->0,
    {
        match it.next() {
            Some(c) => {
                out.push(c);
            },
            None => {
                break ;
            },
        }
    }
    out
}

/// The text made of `chars[from..to]`.
pub fn text_of(chars: &Vec<char>, from: usize, to: usize) -> (r: String)
    requires
        from <= to <= chars.len(),
    ensures
        r@ == chars@.subrange(from as int, to as int),
{
    let mut out = String::new();
    let mut i: usize = from;
    while i < to
        invariant
            from <= i <= to <= chars.len(),
            out@ == chars@.subrange(from as int, i as int),
        decreases to - i,
    {
        out.push(chars[i]);
        i = i + 1;
    }
    out
}

/// Whether two texts hold the same characters.
pub fn same_text(a: &str, b: &str) -> (r: bool)
    ensures
        r == (a@ == b@),
{
    let mut x = a.chars();
    let mut y = b.chars();
    let ghost mut n: int = 0;
    loop
        invariant
            0 <= n <= a@.len(),
            n <= b@.len(),
            a@.subrange(0, n) == b@.subrange(0, n),
            x.remaining() == a@.skip(n),
            y.remaining() == b@.skip(n),
            x.decrease() is Some,
        decreases x.decrease()->0,
    {
        let c = x.next();
        let d = y.next();
        match (c, d) {
            (Some(p), Some(q)) => {
                if p != q {
                    assert(a@[n] != b@[n]);
                    return false;
                }
                proof {
                    assert(a@.subrange(0, n + 1) == a@.subrange(0, n).push(p));
                    assert(b@.subrange(0, n + 1) == b@.subrange(0, n).push(q));
                    n = n + 1;
                }
            },
            (None, None) => {
                assert(a@ == a@.subrange(0, n));
                assert(b@ == b@.subrange(0, n));
                return true;
            },
            _ => {
                assert(a@.len() != b@.len());
                return false;
            },
        }
    }
}

/// Whether `c` is white space: a character with Unicode's `White_Space`
/// property.
pub open spec fn is_whitespace(c: char) -> bool {
    let n = c as u32;
    ||| 0x09 <= n <= 0x0D
    ||| n == 0x20
    ||| n == 0x85
    ||| n == 0xA0
    ||| n == 0x1680
    ||| 0x2000 <= n <= 0x200A
    ||| n == 0x2028
    ||| n == 0x2029
    ||| n == 0x202F
    ||| n == 0x205F
    ||| n == 0x3000
}

/// Whether every character of `s` is white space.
pub open spec fn all_whitespace(s: Seq<char>) -> bool {
    forall|i: int| 0 <= i < s.len() ==> is_whitespace(#[trigger] s[i])
}

/// How many characters of white space `s` starts with.
pub open spec fn leading_whitespace(s: Seq<char>) -> nat
    decreases s.len(),
{
    if s.len() > 0 && is_whitespace(s.first()) {
        1 + leading_whitespace(s.drop_first())
    } else {
        0
    }
}

/// How many characters of white space `s` ends with.
pub open spec fn trailing_whitespace(s: Seq<char>) -> nat
    decreases s.len(),
{
    if s.len() > 0 && is_whitespace(s.last()) {
        1 + trailing_whitespace(s.drop_last())
    } else {
        0
    }
}

/// `s` without the white space it starts and ends with.
pub open spec fn trimmed(s: Seq<char>) -> Seq<char> {
    let rest = s.skip(leading_whitespace(s) as int);
    rest.take(rest.len() - trailing_whitespace(rest))
}

/// The leading white space of `s` ends at the first character that is none.
pub proof fn lemma_leading_whitespace(s: Seq<char>, i: int)
    requires
        0 <= i <= s.len(),
        forall|k: int| 0 <= k < i ==> is_whitespace(#[trigger] s[k]),
        i == s.len() || !is_whitespace(s[i]),
    ensures
        leading_whitespace(s) == i,
    decreases i,
{
    if i > 0 {
        let t = s.drop_first();
        assert(forall|k: int| 0 <= k < i - 1 ==> t[k] == s[k + 1]);
        lemma_leading_whitespace(t, i - 1);
    }
}

/// The trailing white space of `s` starts behind the last character that is
/// none.
pub proof fn lemma_trailing_whitespace(s: Seq<char>, j: int)
    requires
        0 <= j <= s.len(),
        forall|k: int| j <= k < s.len() ==> is_whitespace(#[trigger] s[k]),
        j == 0 || !is_whitespace(s[j - 1]),
    ensures
        trailing_whitespace(s) == s.len() - j,
    decreases s.len() - j,
{
    if j < s.len() {
        let t = s.drop_last();
        assert(forall|k: int| j <= k < t.len() ==> t[k] == s[k]);
        lemma_trailing_whitespace(t, j);
    }
}

/// Where the trimmed part of `s` lies: between the first and behind the last
/// character that is no white space, and empty where there is none.
pub proof fn lemma_trimmed_bounds(s: Seq<char>) -> (b: (int, int))
    ensures
        0 <= b.0 <= b.1 <= s.len(),
        trimmed(s) == s.subrange(b.0, b.1),
        forall|k: int| 0 <= k < b.0 ==> is_whitespace(#[trigger] s[k]),
        forall|k: int| b.1 <= k < s.len() ==> is_whitespace(#[trigger] s[k]),
        b.0 < b.1 ==> !is_whitespace(s[b.0]) && !is_whitespace(s[b.1 - 1]),
        b.0 == b.1 ==> b.0 == s.len(),
        b.0 == leading_whitespace(s),
{
    let a = lemma_leading_bounds(s);
    let rest = s.skip(a);
    let t = lemma_trailing_bounds(rest);
    assert(forall|k: int| 0 <= k < rest.len() ==> rest[k] == s[a + k]);
    assert(forall|k: int| a + t <= k < s.len() ==> s[k] == rest[k - a]);
    assert(rest.take(t) == s.subrange(a, a + t));
    if t == 0 && a < s.len() {
        assert(is_whitespace(rest[0]));
    }
    (a, a + t)
}

proof fn lemma_leading_bounds(s: Seq<char>) -> (a: int)
    ensures
        a == leading_whitespace(s),
        0 <= a <= s.len(),
        forall|k: int| 0 <= k < a ==> is_whitespace(#[trigger] s[k]),
        a == s.len() || !is_whitespace(s[a]),
    decreases s.len(),
{
    if s.len() > 0 && is_whitespace(s.first()) {
        let t = s.drop_first();
        let b = lemma_leading_bounds(t);
        assert(forall|k: int| 1 <= k < b + 1 ==> s[k] == t[k - 1]);
        b + 1
    } else {
        0
    }
}

proof fn lemma_trailing_bounds(s: Seq<char>) -> (j: int)
    ensures
        s.len() - j == trailing_whitespace(s),
        0 <= j <= s.len(),
        forall|k: int| j <= k < s.len() ==> is_whitespace(#[trigger] s[k]),
        j == 0 || !is_whitespace(s[j - 1]),
    decreases s.len(),
{
    if s.len() > 0 && is_whitespace(s.last()) {
        let t = s.drop_last();
        let b = lemma_trailing_bounds(t);
        assert(forall|k: int| b <= k < t.len() ==> s[k] == t[k]);
        b
    } else {
        s.len() as int
    }
}

/// The part of `s` between `a` and `b` is its trimmed part, where white
/// space is all that lies outside and none bounds it.
pub proof fn lemma_trimmed_is(s: Seq<char>, a: int, b: int)
    requires
        0 <= a <= b <= s.len(),
        forall|k: int| 0 <= k < a ==> is_whitespace(#[trigger] s[k]),
        forall|k: int| b <= k < s.len() ==> is_whitespace(#[trigger] s[k]),
        a < b ==> !is_whitespace(s[a]) && !is_whitespace(s[b - 1]),
    ensures
        trimmed(s) == s.subrange(a, b),
{
    if a == b {
        assert forall|k: int| 0 <= k < s.len() implies is_whitespace(#[trigger] s[k]) by {
            if k < a {
            } else {
            }
        }
        lemma_leading_whitespace(s, s.len() as int);
        let rest = s.skip(s.len() as int);
        assert(rest.len() == 0);
        assert(trimmed(s) == s.subrange(a, b));
    } else {
        lemma_leading_whitespace(s, a);
        let rest = s.skip(a);
        assert(forall|k: int| 0 <= k < rest.len() ==> rest[k] == s[a + k]);
        lemma_trailing_whitespace(rest, b - a);
        assert(rest.take(b - a) == s.subrange(a, b));
    }
}

/// Trimming what is trimmed changes nothing.
pub proof fn lemma_trimmed_idempotent(s: Seq<char>)
    ensures
        trimmed(trimmed(s)) == trimmed(s),
{
    let (a, b) = lemma_trimmed_bounds(s);
    let t = s.subrange(a, b);
    lemma_trimmed_is(t, 0, t.len() as int);
    assert(t.subrange(0, t.len() as int) == t);
}

/// White space around a text does not change what it is trimmed to.
pub proof fn lemma_trimmed_ignores_padding(before: Seq<char>, s: Seq<char>, after: Seq<char>)
    requires
        all_whitespace(before),
        all_whitespace(after),
    ensures
        trimmed(before + s + after) == trimmed(s),
{
    let (a, b) = lemma_trimmed_bounds(s);
    let p = before + s + after;
    let n = before.len() as int;
    assert(forall|k: int| 0 <= k < n ==> p[k] == before[k]);
    assert(forall|k: int| n <= k < n + s.len() ==> p[k] == s[k - n]);
    assert(forall|k: int| n + s.len() <= k < p.len() ==> p[k] == after[k - n - s.len()]);
    if a == b {
        assert forall|k: int| 0 <= k < p.len() implies is_whitespace(#[trigger] p[k]) by {
            if k < n {
            } else if k < n + s.len() {
                assert(is_whitespace(s[k - n]));
            } else {
            }
        }
        lemma_trimmed_is(p, p.len() as int, p.len() as int);
        assert(p.subrange(p.len() as int, p.len() as int) == s.subrange(a, b));
    } else {
        assert forall|k: int| 0 <= k < n + a implies is_whitespace(#[trigger] p[k]) by {
            if k < n {
            } else {
                assert(is_whitespace(s[k - n]));
            }
        }
        assert forall|k: int| n + b <= k < p.len() implies is_whitespace(#[trigger] p[k]) by {
            if k < n + s.len() {
                assert(is_whitespace(s[k - n]));
            } else {
            }
        }
        lemma_trimmed_is(p, n + a, n + b);
        assert(p.subrange(n + a, n + b) == s.subrange(a, b));
    }
}

/// Whether `c` is white space.
pub fn is_whitespace_char(c: char) -> (r: bool)
    ensures
        r == is_whitespace(c),
{
    let n: u32 = c as u32;
    (0x09 <= n && n <= 0x0D) || n == 0x20 || n == 0x85 || n == 0xA0 || n == 0x1680 || (0x2000 <= n
        && n <= 0x200A) || n == 0x2028 || n == 0x2029 || n == 0x202F || n == 0x205F || n == 0x3000
}

/// `s` without the white space around it.
pub fn trim(s: &str) -> (r: String)
    ensures
        r@ == trimmed(s@),
{
    let chars = chars_of(s);
    let len = chars.len();
    let mut start: usize = 0;
    while start < len && is_whitespace_char(chars[start])
        invariant
            start <= len == chars.len(),
            forall|k: int| 0 <= k < start ==> is_whitespace(#[trigger] chars@[k]),
        decreases len - start,
    {
        start = start + 1;
    }
    let mut end: usize = len;
    while end > start && is_whitespace_char(chars[end - 1])
        invariant
            start <= end <= len == chars.len(),
            forall|k: int| end <= k < len ==> is_whitespace(#[trigger] chars@[k]),
        decreases end,
    {
        end = end - 1;
    }
    proof {
        lemma_trimmed_is(chars@, start as int, end as int);
    }
    text_of(&chars, start, end)
}

/// Whether `chars` ends with `suffix`.
pub fn has_suffix(chars: &Vec<char>, suffix: &Vec<char>) -> (r: bool)
    ensures
        r == suffix@.is_suffix_of(chars@),
{
    let n = chars.len();
    let m = suffix.len();
    if m > n {
        return false;
    }
    let base = n - m;
    let mut i: usize = 0;
    while i < m
        invariant
            i <= m == suffix.len(),
            n == chars.len(),
            base == n - m,
            forall|k: int| 0 <= k < i ==> chars@[base + k] == suffix@[k],
        decreases m - i,
    {
        if chars[base + i] != suffix[i] {
            assert(chars@.subrange(n - m, n as int)[i as int] != suffix@[i as int]);
            return false;
        }
        i = i + 1;
    }
    assert(suffix@ =~= chars@.subrange(n - m, n as int));
    true
}

} // verus!
