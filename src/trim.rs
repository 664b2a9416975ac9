//! Removing leading and trailing whitespace from a text.
use vstd::prelude::*;

verus! {

/// The characters with the Unicode `White_Space` property.
pub open spec fn is_white(c: char) -> bool {
    ('\u{9}' <= c && c <= '\u{d}') || c == ' ' || c == '\u{85}' || c == '\u{a0}' || c
        == '\u{1680}' || ('\u{2000}' <= c && c <= '\u{200a}') || c == '\u{2028}' || c
        == '\u{2029}' || c == '\u{202f}' || c == '\u{205f}' || c == '\u{3000}'
}

/// Every character of the text is whitespace.
pub open spec fn all_white(s: Seq<char>) -> bool {
    forall|i: int| 0 <= i < s.len() ==> is_white(#[trigger] s[i])
}

/// The text without its leading whitespace.
pub open spec fn trim_start(s: Seq<char>) -> Seq<char>
    decreases s.len(),
{
    if s.len() > 0 && is_white(s[0]) {
        trim_start(s.drop_first())
    } else {
        s
    }
}

/// The text without its trailing whitespace.
pub open spec fn trim_end(s: Seq<char>) -> Seq<char>
    decreases s.len(),
{
    if s.len() > 0 && is_white(s.last()) {
        trim_end(s.drop_last())
    } else {
        s
    }
}

/// The text without its leading and trailing whitespace.
pub open spec fn trimmed(s: Seq<char>) -> Seq<char> {
    trim_end(trim_start(s))
}

pub fn is_white_char(c: char) -> (r: bool)
    ensures
        r == is_white(c),
{
    ('\u{9}' <= c && c <= '\u{d}') || c == ' ' || c == '\u{85}' || c == '\u{a0}' || c
        == '\u{1680}' || ('\u{2000}' <= c && c <= '\u{200a}') || c == '\u{2028}' || c
        == '\u{2029}' || c == '\u{202f}' || c == '\u{205f}' || c == '\u{3000}'
}

/// The part of `s` between its leading and its trailing whitespace.
pub fn trim_text(s: &str) -> (r: &str)
    ensures
        r@ == trimmed(s@),
{
    let n = s.unicode_len();
    let mut a: usize = 0;
    assert(s@.subrange(0, n as int) =~= s@);
    while a < n && is_white_char(s.get_char(a))
        invariant
            n == s@.len(),
            a <= n,
            trim_start(s@.subrange(a as int, n as int)) == trim_start(s@),
        decreases n - a,
    {
        assert(s@.subrange(a as int, n as int).drop_first() =~= s@.subrange(
            a as int + 1,
            n as int,
        ));
        a = a + 1;
    }
    assert(trim_start(s@) == s@.subrange(a as int, n as int));
    let mut b: usize = n;
    while b > a && is_white_char(s.get_char(b - 1))
        invariant
            n == s@.len(),
            a <= b <= n,
            trim_end(s@.subrange(a as int, b as int)) == trimmed(s@),
        decreases b - a,
    {
        assert(s@.subrange(a as int, b as int).drop_last() =~= s@.subrange(
            a as int,
            b as int - 1,
        ));
        b = b - 1;
    }
    s.substring_char(a, b)
}

/// Leading whitespace in front of a text that starts otherwise is removed.
pub proof fn lemma_trim_start_prefix(w: Seq<char>, x: Seq<char>)
    requires
        all_white(w),
        x.len() > 0,
        !is_white(x[0]),
    ensures
        trim_start(w + x) == x,
    decreases w.len(),
{
    if w.len() == 0 {
        assert(w + x =~= x);
    } else {
        assert((w + x).drop_first() =~= w.drop_first() + x);
        assert(is_white(w[0]));
        lemma_trim_start_prefix(w.drop_first(), x);
    }
}

/// Trailing whitespace behind a text that ends otherwise is removed.
pub proof fn lemma_trim_end_suffix(x: Seq<char>, w: Seq<char>)
    requires
        all_white(w),
        x.len() > 0,
        !is_white(x.last()),
    ensures
        trim_end(x + w) == x,
    decreases w.len(),
{
    if w.len() == 0 {
        assert(x + w =~= x);
    } else {
        assert((x + w).drop_last() =~= x + w.drop_last());
        assert(is_white(w.last()));
        lemma_trim_end_suffix(x, w.drop_last());
    }
}

/// Whitespace added around a text that starts and ends otherwise is exactly
/// what trimming takes away.
pub proof fn lemma_trimmed_padding(w1: Seq<char>, x: Seq<char>, w2: Seq<char>)
    requires
        all_white(w1),
        all_white(w2),
        x.len() > 0,
        !is_white(x[0]),
        !is_white(x.last()),
    ensures
        trimmed(w1 + x + w2) == x,
{
    assert(w1 + x + w2 =~= w1 + (x + w2));
    assert((x + w2)[0] == x[0]);
    lemma_trim_start_prefix(w1, x + w2);
    lemma_trim_end_suffix(x, w2);
}

} // verus!
