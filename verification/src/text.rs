//! Character-level helpers: classes of characters, trimming, prefixes, search.
//!
//! Text is handled as a slice of `char`, so that every position is a character
//! and the contracts can speak of `Seq<char>` directly.

use vstd::prelude::*;
use vstd::slice::slice_subrange;
use vstd::string::*;

verus! {

/// `String::push` appends one character at the end of the string.
pub assume_specification[ String::push ](s: &mut String, c: char)
    ensures
        final(s)@ == old(s)@.push(c),
;

/// Whether `c` has the Unicode property `White_Space`.
pub open spec fn is_space(c: char) -> bool {
    let n = c as u32;
    (0x09 <= n <= 0x0D) || n == 0x20 || n == 0x85 || n == 0xA0 || n == 0x1680 || (0x2000 <= n
        <= 0x200A) || n == 0x2028 || n == 0x2029 || n == 0x202F || n == 0x205F || n == 0x3000
}

/// A set of characters that trimming can remove.
#[derive(Clone, Copy, Debug)]
pub enum CharClass {
    /// The characters with the Unicode property `White_Space`.
    Whitespace,
    /// One character and no other.
    Exactly(char),
}

impl CharClass {
    /// Whether `c` belongs to the class.
    pub open spec fn has(self, c: char) -> bool {
        match self {
            CharClass::Whitespace => is_space(c),
            CharClass::Exactly(d) => c == d,
        }
    }

    /// Tests whether `c` belongs to the class.
    pub fn contains(&self, c: char) -> (r: bool)
        ensures
            r == self.has(c),
    {
        match self {
            CharClass::Whitespace => {
                let n: u32 = c as u32;
                (0x09 <= n && n <= 0x0D) || n == 0x20 || n == 0x85 || n == 0xA0 || n == 0x1680 || (
                0x2000 <= n && n <= 0x200A) || n == 0x2028 || n == 0x2029 || n == 0x202F || n
                    == 0x205F || n == 0x3000
            },
            CharClass::Exactly(d) => c == *d,
        }
    }
}

/// `s` without its longest prefix of characters of class `k`.
pub open spec fn trim_start(s: Seq<char>, k: CharClass) -> Seq<char>
    decreases s.len(),
{
    if s.len() > 0 && k.has(s[0]) {
        trim_start(s.drop_first(), k)
    } else {
        s
    }
}

/// `s` without its longest suffix of characters of class `k`.
pub open spec fn trim_end(s: Seq<char>, k: CharClass) -> Seq<char>
    decreases s.len(),
{
    if s.len() > 0 && k.has(s.last()) {
        trim_end(s.drop_last(), k)
    } else {
        s
    }
}

/// `s` without the characters of class `k` at either end.
pub open spec fn trim(s: Seq<char>, k: CharClass) -> Seq<char> {
    trim_end(trim_start(s, k), k)
}

/// The first position of `c` in `s`, or the length of `s` where `c` does not occur.
pub open spec fn position(s: Seq<char>, c: char) -> int
    decreases s.len(),
{
    if s.len() == 0 || s[0] == c {
        0
    } else {
        1 + position(s.drop_first(), c)
    }
}

/// Whether `s` begins with `p`.
pub open spec fn starts_with(s: Seq<char>, p: Seq<char>) -> bool {
    p.len() <= s.len() && s.take(p.len() as int) == p
}

/// The first position at which `p` occurs in `s`, if it occurs at all.
pub open spec fn find(s: Seq<char>, p: Seq<char>) -> Option<int>
    decreases s.len(),
{
    if starts_with(s, p) {
        Some(0)
    } else if s.len() == 0 {
        None
    } else {
        match find(s.drop_first(), p) {
            Some(i) => Some(i + 1),
            None => None,
        }
    }
}

/// The characters of a string slice, one element each.
pub fn chars_of(s: &str) -> (r: Vec<char>)
    ensures
        r@ == s@,
{
    let mut out: Vec<char> = Vec::new();
    let chars = s.chars();
    for c in it: chars
        invariant
            it.seq() == s@,
            out@ == s@.take(it.index()),
    {
        out.push(c);
    }
    out
}

/// A string made of the characters of `s`.
pub fn string_of(s: &[char]) -> (r: String)
    ensures
        r@ == s@,
{
    let mut out = String::new();
    let mut i: usize = 0;
    while i < s.len()
        invariant
            i <= s.len(),
            out@ == s@.take(i as int),
        decreases s.len() - i,
    {
        out.push(s[i]);
        i += 1;
    }
    out
}

/// Removes the longest prefix made of characters of class `k`.
pub fn trim_start_of<'a>(s: &'a [char], k: CharClass) -> (r: &'a [char])
    ensures
        r@ == trim_start(s@, k),
{
    let mut i: usize = 0;
    assert(s@.skip(0) == s@);
    while i < s.len() && k.contains(s[i])
        invariant
            i <= s.len(),
            trim_start(s@, k) == trim_start(s@.skip(i as int), k),
        decreases s.len() - i,
    {
        assert(s@.skip(i as int).drop_first() == s@.skip(i + 1));
        i += 1;
    }
    slice_subrange(s, i, s.len())
}

/// Removes the longest suffix made of characters of class `k`.
pub fn trim_end_of<'a>(s: &'a [char], k: CharClass) -> (r: &'a [char])
    ensures
        r@ == trim_end(s@, k),
{
    let mut n: usize = s.len();
    assert(s@.take(n as int) == s@);
    while n > 0 && k.contains(s[n - 1])
        invariant
            n <= s.len(),
            trim_end(s@, k) == trim_end(s@.take(n as int), k),
        decreases n,
    {
        assert(s@.take(n as int).drop_last() == s@.take(n - 1));
        n -= 1;
    }
    slice_subrange(s, 0, n)
}

/// Removes the characters of class `k` at both ends.
pub fn trim_of<'a>(s: &'a [char], k: CharClass) -> (r: &'a [char])
    ensures
        r@ == trim(s@, k),
{
    trim_end_of(trim_start_of(s, k), k)
}

/// Finds the first `c` in `s`; gives the length of `s` where there is none.
pub fn position_of(s: &[char], c: char) -> (r: usize)
    ensures
        r == position(s@, c),
        r <= s.len(),
{
    let mut i: usize = 0;
    assert(s@.skip(0) == s@);
    while i < s.len() && s[i] != c
        invariant
            i <= s.len(),
            position(s@, c) == i + position(s@.skip(i as int), c),
        decreases s.len() - i,
    {
        assert(s@.skip(i as int).drop_first() == s@.skip(i + 1));
        i += 1;
    }
    proof {
        lemma_position_bound(s@.skip(i as int), c);
    }
    i
}

/// A position moved right by `k`.
pub open spec fn shifted(at: Option<int>, k: int) -> Option<int> {
    match at {
        Some(i) => Some(i + k),
        None => None,
    }
}

/// Tests whether `s` begins with `p`.
pub fn begins_with(s: &[char], p: &[char]) -> (r: bool)
    ensures
        r == starts_with(s@, p@),
{
    if p.len() > s.len() {
        return false;
    }
    let mut i: usize = 0;
    while i < p.len()
        invariant
            i <= p.len() <= s.len(),
            s@.take(i as int) == p@.take(i as int),
        decreases p.len() - i,
    {
        if s[i] != p[i] {
            return false;
        }
        i += 1;
    }
    assert(p@.take(p.len() as int) == p@);
    true
}

/// Tests whether `s` and `p` hold the same characters.
pub fn same_text(s: &[char], p: &[char]) -> (r: bool)
    ensures
        r == (s@ == p@),
{
    if s.len() != p.len() {
        return false;
    }
    assert(s@.take(s.len() as int) == s@);
    begins_with(s, p)
}

/// Removes the prefix `p` from `s`, where `s` begins with it.
pub fn strip_prefix_of<'a>(s: &'a [char], p: &[char]) -> (r: Option<&'a [char]>)
    ensures
        match r {
            Some(rest) => starts_with(s@, p@) && rest@ == s@.skip(p@.len() as int),
            None => !starts_with(s@, p@),
        },
{
    if begins_with(s, p) {
        Some(slice_subrange(s, p.len(), s.len()))
    } else {
        None
    }
}

/// Finds the first place at which `p` occurs in `s`.
pub fn find_of(s: &[char], p: &[char]) -> (r: Option<usize>)
    ensures
        match r {
            Some(i) => find(s@, p@) == Some(i as int) && i + p.len() <= s.len(),
            None => find(s@, p@) is None,
        },
{
    let mut i: usize = 0;
    assert(s@.skip(0) == s@);
    loop
        invariant
            i <= s.len(),
            find(s@, p@) == shifted(find(s@.skip(i as int), p@), i as int),
        decreases s.len() - i,
    {
        if begins_with(slice_subrange(s, i, s.len()), p) {
            return Some(i);
        }
        if i == s.len() {
            return None;
        }
        assert(s@.skip(i as int).drop_first() == s@.skip(i + 1));
        i += 1;
    }
}

/// A position found by `position` lies within the text or at its end.
pub proof fn lemma_position_bound(s: Seq<char>, c: char)
    ensures
        0 <= position(s, c) <= s.len(),
    decreases s.len(),
{
    if s.len() > 0 && s[0] != c {
        lemma_position_bound(s.drop_first(), c);
    }
}

/// `position` is the place of the first `c`: no `c` stands before it, and one
/// stands at it unless it is the end of the text.
pub proof fn lemma_position_is_first(s: Seq<char>, c: char)
    ensures
        0 <= position(s, c) <= s.len(),
        forall|i: int| 0 <= i < position(s, c) ==> s[i] != c,
        position(s, c) < s.len() ==> s[position(s, c)] == c,
    decreases s.len(),
{
    if s.len() > 0 && s[0] != c {
        let rest = s.drop_first();
        lemma_position_is_first(rest, c);
        assert forall|i: int| 0 <= i < position(s, c) implies s[i] != c by {
            if i > 0 {
                assert(s[i] == rest[i - 1]);
            }
        }
        assert(position(rest, c) < rest.len() ==> s[position(s, c)] == rest[position(rest, c)]);
    }
}

/// The place `n` is what `position` gives, where no `c` stands before `n` and
/// one stands at `n` or `n` is the end of the text.
pub proof fn lemma_position_at(s: Seq<char>, c: char, n: int)
    requires
        0 <= n <= s.len(),
        forall|i: int| 0 <= i < n ==> s[i] != c,
        n < s.len() ==> s[n] == c,
    ensures
        position(s, c) == n,
    decreases n,
{
    if n > 0 {
        let rest = s.drop_first();
        assert forall|i: int| 0 <= i < n - 1 implies rest[i] != c by {
            assert(rest[i] == s[i + 1]);
        }
        lemma_position_at(rest, c, n - 1);
    }
}

/// Where `trim_start` cuts: behind a run of characters of the class that
/// starts the text and that no character of the class follows at once.
pub proof fn lemma_trim_start_cut(s: Seq<char>, k: CharClass) -> (n: int)
    ensures
        0 <= n <= s.len(),
        trim_start(s, k) == s.skip(n),
        forall|i: int| 0 <= i < n ==> k.has(s[i]),
        n < s.len() ==> !k.has(s[n]),
    decreases s.len(),
{
    if s.len() > 0 && k.has(s[0]) {
        let rest = s.drop_first();
        let m = lemma_trim_start_cut(rest, k);
        assert(rest.skip(m) == s.skip(m + 1));
        assert forall|i: int| 0 <= i < m + 1 implies k.has(s[i]) by {
            if i > 0 {
                assert(s[i] == rest[i - 1]);
            }
        }
        assert(m < rest.len() ==> s[m + 1] == rest[m]);
        m + 1
    } else {
        assert(s.skip(0) == s);
        0
    }
}

/// Where `trim_end` cuts: before a run of characters of the class that ends
/// the text and that no character of the class precedes at once.
pub proof fn lemma_trim_end_cut(s: Seq<char>, k: CharClass) -> (n: int)
    ensures
        0 <= n <= s.len(),
        trim_end(s, k) == s.take(n),
        forall|i: int| n <= i < s.len() ==> k.has(s[i]),
        n > 0 ==> !k.has(s[n - 1]),
    decreases s.len(),
{
    if s.len() > 0 && k.has(s.last()) {
        let rest = s.drop_last();
        let m = lemma_trim_end_cut(rest, k);
        assert(rest.take(m) == s.take(m));
        assert forall|i: int| m <= i < s.len() implies k.has(s[i]) by {
            if i < rest.len() {
                assert(s[i] == rest[i]);
            }
        }
        assert(m > 0 ==> s[m - 1] == rest[m - 1]);
        m
    } else {
        assert(s.take(s.len() as int) == s);
        s.len() as int
    }
}

/// `trim_start` cuts at `n`, where the characters before `n` are of the class
/// and the one at `n`, if there is one, is not.
pub proof fn lemma_trim_start_at(s: Seq<char>, k: CharClass, n: int)
    requires
        0 <= n <= s.len(),
        forall|i: int| 0 <= i < n ==> k.has(s[i]),
        n < s.len() ==> !k.has(s[n]),
    ensures
        trim_start(s, k) == s.skip(n),
{
    let m = lemma_trim_start_cut(s, k);
    if m < n {
        assert(k.has(s[m]));
    } else if n < m {
        assert(k.has(s[n]));
    }
}

/// `trim_end` cuts at `n`, where the characters from `n` on are of the class
/// and the one before `n`, if there is one, is not.
pub proof fn lemma_trim_end_at(s: Seq<char>, k: CharClass, n: int)
    requires
        0 <= n <= s.len(),
        forall|i: int| n <= i < s.len() ==> k.has(s[i]),
        n > 0 ==> !k.has(s[n - 1]),
    ensures
        trim_end(s, k) == s.take(n),
{
    let m = lemma_trim_end_cut(s, k);
    if m < n {
        assert(k.has(s[n - 1]));
    } else if n < m {
        assert(k.has(s[m - 1]));
    }
}

} // verus!
