//! Character-level string helpers: trimming by character class and substring search.
//!
//! Strings are modelled by their view, a `Seq<char>` of Unicode scalar values.

use vstd::prelude::*;
use vstd::string::*;

verus! {

/// Unicode `White_Space` property (the set `char::is_whitespace` tests).
pub open spec fn is_white_space(c: char) -> bool {
    let u = c as u32;
    ||| 0x9 <= u <= 0xD
    ||| u == 0x20
    ||| u == 0x85
    ||| u == 0xA0
    ||| u == 0x1680
    ||| 0x2000 <= u <= 0x200A
    ||| u == 0x2028
    ||| u == 0x2029
    ||| u == 0x202F
    ||| u == 0x205F
    ||| u == 0x3000
}

/// Whether `c` is white space in the Unicode sense.
pub fn white_space(c: char) -> (r: bool)
    ensures
        r == is_white_space(c),
{
    let u = c as u32;
    (0x9 <= u && u <= 0xD) || u == 0x20 || u == 0x85 || u == 0xA0 || u == 0x1680 || (0x2000 <= u
        && u <= 0x200A) || u == 0x2028 || u == 0x2029 || u == 0x202F || u == 0x205F || u == 0x3000
}

/// The classes of characters that names are trimmed by.
#[derive(Clone, Copy, Debug, PartialEq, Eq, Structural)]
pub enum CharClass {
    /// Unicode white space.
    Whitespace,
    /// The path separator `/`.
    Slash,
}

impl CharClass {
    pub open spec fn holds(self, c: char) -> bool {
        match self {
            CharClass::Whitespace => is_white_space(c),
            CharClass::Slash => c == '/',
        }
    }

    /// Whether `c` belongs to this class.
    pub fn contains(self, c: char) -> (r: bool)
        ensures
            r == self.holds(c),
    {
        match self {
            CharClass::Whitespace => white_space(c),
            CharClass::Slash => c == '/',
        }
    }
}

/// Number of characters at the front of `s` that belong to `k`.
pub open spec fn leading(s: Seq<char>, k: CharClass) -> nat
    decreases s.len(),
{
    if s.len() > 0 && k.holds(s[0]) {
        1 + leading(s.subrange(1, s.len() as int), k)
    } else {
        0
    }
}

/// Number of characters at the back of `s` that belong to `k`.
pub open spec fn trailing(s: Seq<char>, k: CharClass) -> nat
    decreases s.len(),
{
    if s.len() > 0 && k.holds(s.last()) {
        1 + trailing(s.drop_last(), k)
    } else {
        0
    }
}

/// `s` without its leading characters of class `k`.
pub open spec fn strip_start(s: Seq<char>, k: CharClass) -> Seq<char> {
    s.subrange(leading(s, k) as int, s.len() as int)
}

/// `s` without its trailing characters of class `k`.
pub open spec fn strip_end(s: Seq<char>, k: CharClass) -> Seq<char> {
    s.subrange(0, s.len() - trailing(s, k))
}

/// `s` without leading and trailing characters of class `k`.
pub open spec fn strip(s: Seq<char>, k: CharClass) -> Seq<char> {
    strip_end(strip_start(s, k), k)
}

/// `s` without leading and trailing white space (what `str::trim` returns).
pub open spec fn trim(s: Seq<char>) -> Seq<char> {
    strip(s, CharClass::Whitespace)
}

/// Whether `needle` occurs in `hay` as a contiguous run.
pub open spec fn occurs_in(needle: Seq<char>, hay: Seq<char>) -> bool {
    exists|i: int|
        0 <= i && i + needle.len() <= hay.len() && #[trigger] hay.subrange(i, i + needle.len())
            == needle
}

pub proof fn lemma_leading_bound(s: Seq<char>, k: CharClass)
    ensures
        leading(s, k) <= s.len(),
    decreases s.len(),
{
    if s.len() > 0 && k.holds(s[0]) {
        lemma_leading_bound(s.subrange(1, s.len() as int), k);
    }
}

/// `leading` is the length of the longest prefix in the class.
pub proof fn lemma_leading_exact(s: Seq<char>, k: CharClass, i: int)
    requires
        0 <= i <= s.len(),
        forall|j: int| 0 <= j < i ==> k.holds(#[trigger] s[j]),
        i == s.len() || !k.holds(s[i]),
    ensures
        leading(s, k) == i,
    decreases s.len(),
{
    if i > 0 {
        let t = s.subrange(1, s.len() as int);
        assert forall|j: int| 0 <= j < i - 1 implies k.holds(#[trigger] t[j]) by {
            assert(t[j] == s[j + 1]);
        }
        if i - 1 < t.len() {
            assert(t[i - 1] == s[i]);
        }
        lemma_leading_exact(t, k, i - 1);
    }
}

/// The characters counted by `leading` are in the class, and the next one is not.
pub proof fn lemma_leading_props(s: Seq<char>, k: CharClass)
    ensures
        leading(s, k) <= s.len(),
        forall|j: int| 0 <= j < leading(s, k) ==> k.holds(#[trigger] s[j]),
        leading(s, k) < s.len() ==> !k.holds(s[leading(s, k) as int]),
    decreases s.len(),
{
    if s.len() > 0 && k.holds(s[0]) {
        let t = s.subrange(1, s.len() as int);
        lemma_leading_props(t, k);
        assert forall|j: int| 0 <= j < leading(s, k) implies k.holds(#[trigger] s[j]) by {
            if j > 0 {
                assert(s[j] == t[j - 1]);
            }
        }
        if leading(s, k) < s.len() {
            assert(s[leading(s, k) as int] == t[leading(t, k) as int]);
        }
    }
}

/// `trailing` is the length of the longest suffix in the class.
pub proof fn lemma_trailing_exact(s: Seq<char>, k: CharClass, i: int)
    requires
        0 <= i <= s.len(),
        forall|j: int| s.len() - i <= j < s.len() ==> k.holds(#[trigger] s[j]),
        i == s.len() || !k.holds(s[s.len() - 1 - i]),
    ensures
        trailing(s, k) == i,
    decreases s.len(),
{
    if i > 0 {
        let t = s.drop_last();
        assert(k.holds(s[s.len() - 1]));
        assert forall|j: int| t.len() - (i - 1) <= j < t.len() implies k.holds(#[trigger] t[j]) by {
            assert(t[j] == s[j]);
        }
        if i - 1 < t.len() {
            assert(t[t.len() - 1 - (i - 1)] == s[s.len() - 1 - i]);
        }
        lemma_trailing_exact(t, k, i - 1);
    }
}

/// The characters counted by `trailing` are in the class, and the one before them is not.
pub proof fn lemma_trailing_props(s: Seq<char>, k: CharClass)
    ensures
        trailing(s, k) <= s.len(),
        forall|j: int| s.len() - trailing(s, k) <= j < s.len() ==> k.holds(#[trigger] s[j]),
        trailing(s, k) < s.len() ==> !k.holds(s[s.len() - 1 - trailing(s, k)]),
    decreases s.len(),
{
    if s.len() > 0 && k.holds(s.last()) {
        let t = s.drop_last();
        lemma_trailing_props(t, k);
        assert forall|j: int| s.len() - trailing(s, k) <= j < s.len() implies k.holds(
            #[trigger] s[j],
        ) by {
            if j < s.len() - 1 {
                assert(s[j] == t[j]);
            }
        }
        if trailing(s, k) < s.len() {
            assert(s[s.len() - 1 - trailing(s, k)] == t[t.len() - 1 - trailing(t, k)]);
        }
    }
}

/// A stripped sequence neither starts nor ends with a character of the class.
pub proof fn lemma_strip_ends(s: Seq<char>, k: CharClass)
    ensures
        strip(s, k).len() > 0 ==> !k.holds(strip(s, k)[0]),
        strip(s, k).len() > 0 ==> !k.holds(strip(s, k).last()),
{
    let t = strip_start(s, k);
    lemma_leading_props(s, k);
    lemma_trailing_props(t, k);
    let r = strip(s, k);
    if r.len() > 0 {
        assert(r[0] == t[0]);
        assert(t[0] == s[leading(s, k) as int]);
        assert(r.last() == t[t.len() - 1 - trailing(t, k)]);
    }
}

/// Stripping leaves a sequence alone when neither end is in the class.
pub proof fn lemma_strip_identity(s: Seq<char>, k: CharClass)
    requires
        s.len() > 0 ==> !k.holds(s[0]) && !k.holds(s.last()),
    ensures
        strip_start(s, k) == s,
        strip(s, k) == s,
{
    assert(leading(s, k) == 0);
    assert(strip_start(s, k) =~= s);
    assert(trailing(s, k) == 0);
    assert(strip_end(s, k) =~= s);
}

/// Prefixing a sequence leaves its class suffix unchanged, unless the whole of it is in the class.
pub proof fn lemma_trailing_prefix(a: Seq<char>, b: Seq<char>, k: CharClass)
    requires
        trailing(b, k) < b.len(),
    ensures
        trailing(a + b, k) == trailing(b, k),
{
    lemma_trailing_props(b, k);
    let s = a + b;
    let i = trailing(b, k) as int;
    assert forall|j: int| s.len() - i <= j < s.len() implies k.holds(#[trigger] s[j]) by {
        assert(s[j] == b[j - a.len()]);
    }
    assert(s[s.len() - 1 - i] == b[b.len() - 1 - i]);
    lemma_trailing_exact(s, k, i);
}

/// A leading character in the class adds one to the class prefix.
pub proof fn lemma_leading_cons(c: char, u: Seq<char>, k: CharClass)
    requires
        k.holds(c),
    ensures
        leading(seq![c] + u, k) == 1 + leading(u, k),
        strip_start(seq![c] + u, k) == strip_start(u, k),
{
    let s = seq![c] + u;
    assert(s[0] == c);
    assert(s.subrange(1, s.len() as int) =~= u);
    lemma_leading_bound(u, k);
    assert(strip_start(s, k) =~= strip_start(u, k));
}

/// Where `strip` cuts: the kept part is `s[i..j]`, everything before `i` and from `j` on is
/// in the class, and the kept part neither starts nor ends with a character of the class.
pub proof fn lemma_strip_bounds(s: Seq<char>, k: CharClass) -> (r: (int, int))
    ensures
        0 <= r.0 <= r.1 <= s.len(),
        r.0 == leading(s, k),
        forall|p: int| 0 <= p < r.0 ==> k.holds(#[trigger] s[p]),
        forall|p: int| r.1 <= p < s.len() ==> k.holds(#[trigger] s[p]),
        s.subrange(r.0, r.1) == strip(s, k),
        r.0 == r.1 || (!k.holds(s[r.0]) && !k.holds(s[r.1 - 1])),
{
    lemma_leading_props(s, k);
    let i = leading(s, k) as int;
    let t = strip_start(s, k);
    lemma_trailing_props(t, k);
    let tr = trailing(t, k) as int;
    let j = s.len() - tr;
    assert forall|p: int| j <= p < s.len() implies k.holds(#[trigger] s[p]) by {
        assert(s[p] == t[p - i]);
    }
    assert(s.subrange(i, j) =~= strip(s, k));
    if i < j {
        assert(s[i] == t[0]);
        assert(s[j - 1] == t[t.len() - 1 - tr]);
    }
    (i, j)
}

/// Trimming removes exactly the white space at both ends: `s` is white space, then
/// `trim(s)`, then white space, and `trim(s)` neither starts nor ends with white space.
pub proof fn law_trim_shape(s: Seq<char>)
    ensures
        exists|i: int, j: int|
            0 <= i <= j <= s.len() && (forall|p: int| 0 <= p < i ==> is_white_space(
                #[trigger] s[p],
            )) && (forall|p: int| j <= p < s.len() ==> is_white_space(#[trigger] s[p]))
                && #[trigger] s.subrange(i, j) == trim(s) && (i == j || (!is_white_space(s[i])
                && !is_white_space(s[j - 1]))),
{
    let (i, j) = lemma_strip_bounds(s, CharClass::Whitespace);
    assert(s.subrange(i, j) == trim(s));
}

/// Number of leading characters of class `k` in `s`.
pub fn count_leading(s: &str, k: CharClass) -> (n: usize)
    ensures
        n == leading(s@, k),
{
    let len = s.unicode_len();
    let mut i: usize = 0;
    loop
        invariant_except_break
            i <= len,
            len == s@.len(),
            forall|j: int| 0 <= j < i ==> k.holds(#[trigger] s@[j]),
        ensures
            i <= len,
            len == s@.len(),
            forall|j: int| 0 <= j < i ==> k.holds(#[trigger] s@[j]),
            i == len || !k.holds(s@[i as int]),
        decreases len - i,
    {
        if i >= len {
            break ;
        }
        if !k.contains(s.get_char(i)) {
            break ;
        }
        i = i + 1;
    }
    proof {
        lemma_leading_exact(s@, k, i as int);
    }
    i
}

/// Number of trailing characters of class `k` in the part of `s` from index `lo` on.
pub fn count_trailing_from(s: &str, lo: usize, k: CharClass) -> (n: usize)
    requires
        lo <= s@.len(),
    ensures
        n == trailing(s@.subrange(lo as int, s@.len() as int), k),
        n <= s@.len() - lo,
{
    let len = s.unicode_len();
    let ghost t = s@.subrange(lo as int, s@.len() as int);
    let mut n: usize = 0;
    loop
        invariant_except_break
            lo + n <= len,
            len == s@.len(),
            t == s@.subrange(lo as int, s@.len() as int),
            forall|j: int| len - n <= j < len ==> k.holds(#[trigger] s@[j]),
        ensures
            lo + n <= len,
            len == s@.len(),
            t == s@.subrange(lo as int, s@.len() as int),
            forall|j: int| len - n <= j < len ==> k.holds(#[trigger] s@[j]),
            lo + n == len || !k.holds(s@[len - 1 - n]),
        decreases len - lo - n,
    {
        if lo + n >= len {
            break ;
        }
        if !k.contains(s.get_char(len - 1 - n)) {
            break ;
        }
        n = n + 1;
    }
    proof {
        assert forall|j: int| t.len() - n <= j < t.len() implies k.holds(#[trigger] t[j]) by {
            assert(t[j] == s@[lo + j]);
        }
        if n < t.len() {
            assert(t[t.len() - 1 - n] == s@[len - 1 - n]);
        }
        lemma_trailing_exact(t, k, n as int);
    }
    n
}

/// `s` without leading and trailing characters of class `k`.
pub fn strip_str(s: &str, k: CharClass) -> (r: &str)
    ensures
        r@ == strip(s@, k),
{
    let len = s.unicode_len();
    let a = count_leading(s, k);
    proof {
        lemma_leading_bound(s@, k);
    }
    let b = count_trailing_from(s, a, k);
    let r = s.substring_char(a, len - b);
    proof {
        let t = strip_start(s@, k);
        assert(t == s@.subrange(a as int, s@.len() as int));
        assert(r@ =~= t.subrange(0, t.len() - trailing(t, k)));
    }
    r
}

/// `s` without its leading characters of class `k`.
pub fn strip_start_str(s: &str, k: CharClass) -> (r: &str)
    ensures
        r@ == strip_start(s@, k),
{
    let len = s.unicode_len();
    let a = count_leading(s, k);
    proof {
        lemma_leading_bound(s@, k);
    }
    s.substring_char(a, len)
}

/// Whether the first character of `s` is `c`.
pub fn starts_with_char(s: &str, c: char) -> (r: bool)
    ensures
        r == (s@.len() > 0 && s@[0] == c),
{
    let len = s.unicode_len();
    if len == 0 {
        false
    } else {
        s.get_char(0) == c
    }
}

/// Whether `needle` occurs in `hay` as a contiguous run of characters.
pub fn contains_str(hay: &str, needle: &str) -> (r: bool)
    ensures
        r == occurs_in(needle@, hay@),
{
    let h = hay.unicode_len();
    let m = needle.unicode_len();
    if m > h {
        proof {
            assert forall|i: int|
                0 <= i && i + needle@.len() <= hay@.len() implies #[trigger] hay@.subrange(
                i,
                i + needle@.len(),
            ) != needle@ by {}
        }
        return false;
    }
    let mut i: usize = 0;
    while i <= h - m
        invariant
            h == hay@.len(),
            m == needle@.len(),
            m <= h,
            i <= h - m + 1,
            forall|p: int| 0 <= p < i ==> #[trigger] hay@.subrange(p, p + m) != needle@,
        decreases h - m + 1 - i,
    {
        let mut j: usize = 0;
        let mut same = true;
        while j < m
            invariant
                h == hay@.len(),
                m == needle@.len(),
                i + m <= h,
                j <= m,
                same == forall|q: int| 0 <= q < j ==> hay@[i + q] == needle@[q],
            decreases m - j,
        {
            if hay.get_char(i + j) != needle.get_char(j) {
                same = false;
            }
            j = j + 1;
        }
        if same {
            proof {
                assert(hay@.subrange(i as int, i + m) =~= needle@);
            }
            return true;
        }
        proof {
            let q = choose|q: int| 0 <= q < m && hay@[i + q] != needle@[q];
            assert(hay@.subrange(i as int, i + m)[q] != needle@[q]);
        }
        i = i + 1;
    }
    proof {
        assert forall|p: int|
            0 <= p && p + needle@.len() <= hay@.len() implies #[trigger] hay@.subrange(
            p,
            p + needle@.len(),
        ) != needle@ by {
            assert(p < i);
        }
    }
    false
}

} // verus!
