//! Facts about texts as sequences of characters: where a pattern occurs,
//! which characters a text lacks, and scanning predicates that let Verus
//! check such facts position by position on literal texts.

use vstd::prelude::*;

verus! {

/// `p` occurs in `s` starting at position `i`.
pub open spec fn occurs_at(s: Seq<char>, p: Seq<char>, i: int) -> bool {
    &&& 0 <= i
    &&& i + p.len() <= s.len()
    &&& s.subrange(i, i + p.len()) == p
}

/// `p` occurs somewhere in `s` (the `contains` of a string search).
pub open spec fn contains(s: Seq<char>, p: Seq<char>) -> bool {
    exists|i: int| occurs_at(s, p, i)
}

/// `s` starts with `p`.
pub open spec fn starts_with(s: Seq<char>, p: Seq<char>) -> bool {
    occurs_at(s, p, 0)
}

/// No position of `s` holds the character `c`.
pub open spec fn char_free(s: Seq<char>, c: char) -> bool {
    forall|i: int| 0 <= i < s.len() ==> s[i] != c
}

/// No two neighbouring positions of `s` hold `a` followed by `b`.
pub open spec fn pair_free(s: Seq<char>, a: char, b: char) -> bool {
    forall|i: int| 0 <= i && i + 1 < s.len() ==> !(#[trigger] s[i] == a && s[i + 1] == b)
}

/// The empty text when `b` is false, `s` otherwise.
pub open spec fn included(b: bool, s: Seq<char>) -> Seq<char> {
    if b {
        s
    } else {
        Seq::empty()
    }
}

/// Scanning form of [`char_free`] on the positions `lo..hi`, split in halves
/// so that a literal of a few thousand characters unfolds in a shallow tree.
pub open spec fn no_char_in(s: Seq<char>, c: char, lo: int, hi: int) -> bool
    decreases hi - lo,
{
    if hi - lo <= 0 {
        true
    } else if hi - lo == 1 {
        s[lo] != c
    } else {
        let mid = lo + (hi - lo) / 2;
        no_char_in(s, c, lo, mid) && no_char_in(s, c, mid, hi)
    }
}

/// Scanning form of [`pair_free`] for pairs starting at `lo..hi`.
pub open spec fn no_pair_in(s: Seq<char>, a: char, b: char, lo: int, hi: int) -> bool
    decreases hi - lo,
{
    if hi - lo <= 0 {
        true
    } else if hi - lo == 1 {
        !(s[lo] == a && s[lo + 1] == b)
    } else {
        let mid = lo + (hi - lo) / 2;
        no_pair_in(s, a, b, lo, mid) && no_pair_in(s, a, b, mid, hi)
    }
}

/// Scanning form of "`s` holds `p[lo..hi]` at `off + lo .. off + hi`".
pub open spec fn agrees_in(s: Seq<char>, p: Seq<char>, off: int, lo: int, hi: int) -> bool
    decreases hi - lo,
{
    if hi - lo <= 0 {
        true
    } else if hi - lo == 1 {
        s[off + lo] == p[lo]
    } else {
        let mid = lo + (hi - lo) / 2;
        agrees_in(s, p, off, lo, mid) && agrees_in(s, p, off, mid, hi)
    }
}

pub proof fn lemma_no_char_in(s: Seq<char>, c: char, lo: int, hi: int)
    requires
        no_char_in(s, c, lo, hi),
    ensures
        forall|i: int| lo <= i < hi ==> s[i] != c,
    decreases hi - lo,
{
    if hi - lo > 1 {
        let mid = lo + (hi - lo) / 2;
        lemma_no_char_in(s, c, lo, mid);
        lemma_no_char_in(s, c, mid, hi);
    }
}

pub proof fn lemma_no_pair_in(s: Seq<char>, a: char, b: char, lo: int, hi: int)
    requires
        no_pair_in(s, a, b, lo, hi),
    ensures
        forall|i: int| lo <= i < hi ==> !(#[trigger] s[i] == a && s[i + 1] == b),
    decreases hi - lo,
{
    if hi - lo > 1 {
        let mid = lo + (hi - lo) / 2;
        lemma_no_pair_in(s, a, b, lo, mid);
        lemma_no_pair_in(s, a, b, mid, hi);
    }
}

pub proof fn lemma_agrees_in(s: Seq<char>, p: Seq<char>, off: int, lo: int, hi: int)
    requires
        agrees_in(s, p, off, lo, hi),
    ensures
        forall|i: int| lo <= i < hi ==> s[off + i] == p[i],
    decreases hi - lo,
{
    if hi - lo > 1 {
        let mid = lo + (hi - lo) / 2;
        lemma_agrees_in(s, p, off, lo, mid);
        lemma_agrees_in(s, p, off, mid, hi);
    }
}

/// A scanned literal is free of `c`.
pub proof fn lemma_scan_char_free(s: Seq<char>, c: char)
    requires
        no_char_in(s, c, 0, s.len() as int),
    ensures
        char_free(s, c),
{
    lemma_no_char_in(s, c, 0, s.len() as int);
}

/// A scanned literal is free of the pair `a b`.
pub proof fn lemma_scan_pair_free(s: Seq<char>, a: char, b: char)
    requires
        s.len() == 0 || no_pair_in(s, a, b, 0, s.len() - 1),
    ensures
        pair_free(s, a, b),
{
    if s.len() > 0 {
        lemma_no_pair_in(s, a, b, 0, s.len() - 1);
    }
}

/// A scanned agreement shows that `p` occurs in `s` at `off`.
pub proof fn lemma_scan_occurs(s: Seq<char>, p: Seq<char>, off: int)
    requires
        0 <= off,
        off + p.len() <= s.len(),
        agrees_in(s, p, off, 0, p.len() as int),
    ensures
        occurs_at(s, p, off),
{
    lemma_agrees_in(s, p, off, 0, p.len() as int);
    assert(s.subrange(off, off + p.len()) =~= p);
}

/// A text without the character `p[k]` cannot contain `p`.
pub proof fn lemma_char_free_excludes(s: Seq<char>, p: Seq<char>, k: int)
    requires
        0 <= k < p.len(),
        char_free(s, p[k]),
    ensures
        !contains(s, p),
{
    assert forall|i: int| !occurs_at(s, p, i) by {
        if occurs_at(s, p, i) {
            assert(s.subrange(i, i + p.len())[k] == s[i + k]);
        }
    }
}

/// A text without the neighbouring pair `p[k] p[k + 1]` cannot contain `p`.
pub proof fn lemma_pair_free_excludes(s: Seq<char>, p: Seq<char>, k: int)
    requires
        0 <= k && k + 1 < p.len(),
        pair_free(s, p[k], p[k + 1]),
    ensures
        !contains(s, p),
{
    assert forall|i: int| !occurs_at(s, p, i) by {
        if occurs_at(s, p, i) {
            assert(s.subrange(i, i + p.len())[k] == s[i + k]);
            assert(s.subrange(i, i + p.len())[k + 1] == s[i + k + 1]);
        }
    }
}

pub proof fn lemma_char_free_concat(x: Seq<char>, y: Seq<char>, c: char)
    requires
        char_free(x, c),
        char_free(y, c),
    ensures
        char_free(x + y, c),
{
    assert forall|i: int| 0 <= i < (x + y).len() implies (x + y)[i] != c by {
        if i >= x.len() {
            assert((x + y)[i] == y[i - x.len()]);
        }
    }
}

/// Joining two pair-free texts keeps the pair out when `x` does not end
/// with the pair's first character.
pub proof fn lemma_pair_free_concat(x: Seq<char>, y: Seq<char>, a: char, b: char)
    requires
        pair_free(x, a, b),
        pair_free(y, a, b),
        x.len() == 0 || x[x.len() - 1] != a,
    ensures
        pair_free(x + y, a, b),
{
    assert forall|i: int| 0 <= i && i + 1 < (x + y).len() implies !(#[trigger] (x + y)[i] == a
        && (x + y)[i + 1] == b) by {
        if i + 1 < x.len() {
        } else if i + 1 == x.len() {
        } else {
            assert((x + y)[i] == y[i - x.len()]);
            assert((x + y)[i + 1] == y[i + 1 - x.len()]);
        }
    }
}

/// The characters with the Unicode property White_Space, which `str::trim`
/// removes: U+0009 to U+000D, U+0020, U+0085, U+00A0, U+1680, U+2000 to
/// U+200A, U+2028, U+2029, U+202F, U+205F and U+3000.
pub open spec fn is_white_space(c: char) -> bool {
    let n = c as u32;
    ||| 0x9 <= n <= 0xd
    ||| n == 0x20
    ||| n == 0x85
    ||| n == 0xa0
    ||| n == 0x1680
    ||| 0x2000 <= n <= 0x200a
    ||| n == 0x2028
    ||| n == 0x2029
    ||| n == 0x202f
    ||| n == 0x205f
    ||| n == 0x3000
}

/// `s` without its leading white space.
pub open spec fn trim_start_text(s: Seq<char>) -> Seq<char>
    decreases s.len(),
{
    if s.len() > 0 && is_white_space(s[0]) {
        trim_start_text(s.drop_first())
    } else {
        s
    }
}

/// `s` without its trailing white space.
pub open spec fn trim_end_text(s: Seq<char>) -> Seq<char>
    decreases s.len(),
{
    if s.len() > 0 && is_white_space(s.last()) {
        trim_end_text(s.drop_last())
    } else {
        s
    }
}

/// `s` without its leading and trailing white space.
pub open spec fn trimmed(s: Seq<char>) -> Seq<char> {
    trim_end_text(trim_start_text(s))
}

/// Whether `c` is a White_Space character.
pub fn white_space(c: char) -> (b: bool)
    ensures
        b == is_white_space(c),
{
    let n: u32 = c as u32;
    (0x9 <= n && n <= 0xd) || n == 0x20 || n == 0x85 || n == 0xa0 || n == 0x1680 || (0x2000 <= n
        && n <= 0x200a) || n == 0x2028 || n == 0x2029 || n == 0x202f || n == 0x205f || n
        == 0x3000
}

/// `s` without its leading and trailing white space.
pub fn trim(s: &str) -> (t: String)
    ensures
        t@ == trimmed(s@),
{
    let n: usize = s.unicode_len();
    let mut lo: usize = 0;
    assert(s@.subrange(0, n as int) =~= s@);
    while lo < n && white_space(s.get_char(lo))
        invariant
            n == s@.len(),
            lo <= n,
            trim_start_text(s@) == trim_start_text(s@.subrange(lo as int, n as int)),
        decreases n - lo,
    {
        assert(s@.subrange(lo as int, n as int).drop_first() =~= s@.subrange(lo + 1, n as int));
        lo = lo + 1;
    }
    assert(trim_start_text(s@) == s@.subrange(lo as int, n as int));
    let mut hi: usize = n;
    while hi > lo && white_space(s.get_char(hi - 1))
        invariant
            n == s@.len(),
            lo <= hi <= n,
            trimmed(s@) == trim_end_text(s@.subrange(lo as int, hi as int)),
        decreases hi - lo,
    {
        assert(s@.subrange(lo as int, hi as int).drop_last() =~= s@.subrange(
            lo as int,
            hi - 1,
        ));
        hi = hi - 1;
    }
    let t = s.substring_char(lo, hi);
    t.to_owned()
}

/// What is left of a text after trimming has no white space at either end.
pub proof fn lemma_trimmed_ends(s: Seq<char>)
    ensures
        trimmed(s).len() > 0 ==> !is_white_space(trimmed(s)[0]) && !is_white_space(
            trimmed(s).last(),
        ),
{
    lemma_trim_start_ends(s);
    lemma_trim_end_keeps_start(trim_start_text(s));
}

proof fn lemma_trim_start_ends(s: Seq<char>)
    ensures
        trim_start_text(s).len() > 0 ==> !is_white_space(trim_start_text(s)[0]),
    decreases s.len(),
{
    if s.len() > 0 && is_white_space(s[0]) {
        lemma_trim_start_ends(s.drop_first());
    }
}

/// Trimming the end keeps a text's first character, and leaves no white
/// space at the end.
proof fn lemma_trim_end_keeps_start(s: Seq<char>)
    ensures
        trim_end_text(s).len() > 0 ==> {
            &&& trim_end_text(s)[0] == s[0]
            &&& !is_white_space(trim_end_text(s).last())
        },
    decreases s.len(),
{
    if s.len() > 0 && is_white_space(s.last()) {
        lemma_trim_end_keeps_start(s.drop_last());
    }
}

/// An occurrence inside the middle part is an occurrence in the whole.
pub proof fn lemma_occurs_within(x: Seq<char>, m: Seq<char>, y: Seq<char>, p: Seq<char>, j: int)
    requires
        occurs_at(m, p, j),
    ensures
        occurs_at(x + m + y, p, x.len() + j),
        contains(x + m + y, p),
{
    let s = x + m + y;
    assert(s.subrange(x.len() + j, x.len() + j + p.len()) =~= m.subrange(j, j + p.len()));
}

} // verus!
