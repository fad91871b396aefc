//! Cleaning of user-supplied text: trimming of white space and lower-casing.

use vstd::prelude::*;

verus! {

/// Whether `c` is white space, that is, one of the characters that carry
/// Unicode's `White_Space` property.
pub open spec fn is_white_space(c: char) -> bool {
    let n = c as u32;
    ||| 0x09 <= n <= 0x0D
    ||| n == 0x20
    ||| n == 0x85
    ||| n == 0xA0
    ||| n == 0x1680
    ||| 0x2000 <= n <= 0x200A
    ||| n == 0x2028
    ||| n == 0x2029
    ||| n == 0x202F
    ||| n == 0x205F
    ||| n == 0x3000
}

/// The text without the white space at its two ends.
pub open spec fn trimmed(s: Seq<char>) -> Seq<char>
    decreases s.len(),
{
    if s.len() > 0 && is_white_space(s.first()) {
        trimmed(s.drop_first())
    } else if s.len() > 0 && is_white_space(s.last()) {
        trimmed(s.drop_last())
    } else {
        s
    }
}

/// Whether every character of the text is an ASCII character.
pub open spec fn is_ascii_text(s: Seq<char>) -> bool {
    forall|i: int| 0 <= i < s.len() ==> (#[trigger] s[i]) as u32 <= 0x7F
}

/// The lower-case form of an ASCII character: `'A'` to `'Z'` become `'a'` to
/// `'z'`, every other character stays.
pub open spec fn ascii_lowercase_char(c: char) -> char {
    if 'A' <= c <= 'Z' {
        ((c as u8) + 32) as char
    } else {
        c
    }
}

/// What Unicode's lower-casing makes of a text, as the standard library
/// computes it. Nothing is said of it here but for ASCII text: see
/// [`lowercase`].
pub uninterp spec fn unicode_lowercase(s: Seq<char>) -> Seq<char>;

/// The lower-case form of the text. ASCII text is lower-cased letter by
/// letter; any other text is what [`unicode_lowercase`] makes of it.
pub open spec fn lowercase(s: Seq<char>) -> Seq<char> {
    if is_ascii_text(s) {
        s.map_values(|c: char| ascii_lowercase_char(c))
    } else {
        unicode_lowercase(s)
    }
}

/// The text as it is compared: trimmed, then lower-cased.
pub open spec fn cleaned(s: Seq<char>) -> Seq<char> {
    lowercase(trimmed(s))
}

/// Whether every character of the text is white space.
pub open spec fn is_blank(s: Seq<char>) -> bool {
    forall|i: int| 0 <= i < s.len() ==> is_white_space(#[trigger] s[i])
}

/// Whether two texts are the same but for the case of ASCII letters.
pub open spec fn same_but_for_ascii_case(a: Seq<char>, b: Seq<char>) -> bool {
    &&& a.len() == b.len()
    &&& forall|i: int|
        0 <= i < a.len() ==> ascii_lowercase_char(#[trigger] a[i]) == ascii_lowercase_char(b[i])
}

/// Trimming takes away white space only, at the two ends only, and all of
/// it: what is left neither starts nor ends with white space.
pub proof fn lemma_trimmed_is_the_text_without_its_margins(s: Seq<char>)
    ensures
        exists|before: Seq<char>, after: Seq<char>|
            is_blank(before) && is_blank(after) && s == before + trimmed(s) + after,
        trimmed(s).len() > 0 ==> !is_white_space(trimmed(s).first()) && !is_white_space(
            trimmed(s).last(),
        ),
    decreases s.len(),
{
    let none = Seq::<char>::empty();
    if s.len() > 0 && is_white_space(s.first()) {
        let rest = s.drop_first();
        lemma_trimmed_is_the_text_without_its_margins(rest);
        let (before, after) = choose|before: Seq<char>, after: Seq<char>|
            is_blank(before) && is_blank(after) && rest == before + trimmed(rest) + after;
        let wider = seq![s.first()] + before;
        assert(s == seq![s.first()] + rest);
        assert(s == wider + trimmed(s) + after);
        assert(is_blank(wider));
    } else if s.len() > 0 && is_white_space(s.last()) {
        let rest = s.drop_last();
        lemma_trimmed_is_the_text_without_its_margins(rest);
        let (before, after) = choose|before: Seq<char>, after: Seq<char>|
            is_blank(before) && is_blank(after) && rest == before + trimmed(rest) + after;
        let wider = after + seq![s.last()];
        assert(s == rest + seq![s.last()]);
        assert(s == before + trimmed(s) + wider);
        assert(is_blank(wider));
    } else {
        assert(is_blank(none) && s == none + trimmed(s) + none);
    }
}

/// White space around a text does not change what is left of it after
/// trimming.
pub proof fn lemma_trimmed_ignores_surrounding_white_space(
    before: Seq<char>,
    s: Seq<char>,
    after: Seq<char>,
)
    requires
        is_blank(before),
        is_blank(after),
    ensures
        trimmed(before + s + after) == trimmed(s),
    decreases before.len() + s.len() + after.len(),
{
    let whole = before + s + after;
    if before.len() > 0 {
        assert(whole.first() == before[0]);
        assert(whole.drop_first() == before.drop_first() + s + after);
        lemma_trimmed_ignores_surrounding_white_space(before.drop_first(), s, after);
    } else if after.len() > 0 {
        assert(whole == s + after);
        if s.len() > 0 && is_white_space(s.first()) {
            assert(whole.first() == s[0]);
            assert(whole.drop_first() == before + s.drop_first() + after);
            lemma_trimmed_ignores_surrounding_white_space(before, s.drop_first(), after);
        } else if s.len() == 0 && after.len() > 0 {
            assert(whole.first() == after[0]);
            assert(whole.drop_first() == before + s + after.drop_first());
            lemma_trimmed_ignores_surrounding_white_space(before, s, after.drop_first());
        } else {
            assert(whole.first() == s[0]);
            assert(whole.last() == after[after.len() - 1]);
            assert(whole.drop_last() == before + s + after.drop_last());
            lemma_trimmed_ignores_surrounding_white_space(before, s, after.drop_last());
        }
    } else {
        assert(whole == s);
    }
}

/// Trimming takes the same part of two texts that are the same but for the
/// case of ASCII letters, and leaves ASCII text ASCII.
pub proof fn lemma_trimmed_ignores_ascii_case(a: Seq<char>, b: Seq<char>)
    requires
        same_but_for_ascii_case(a, b),
    ensures
        same_but_for_ascii_case(trimmed(a), trimmed(b)),
        is_ascii_text(a) ==> is_ascii_text(trimmed(a)) && is_ascii_text(trimmed(b)),
    decreases a.len(),
{
    if a.len() > 0 {
        assert(ascii_lowercase_char(a[0]) == ascii_lowercase_char(b[0]));
        assert(ascii_lowercase_char(a[a.len() - 1]) == ascii_lowercase_char(b[a.len() - 1]));
        if is_white_space(a.first()) {
            assert(is_white_space(b.first()));
            lemma_trimmed_ignores_ascii_case(a.drop_first(), b.drop_first());
        } else if is_white_space(a.last()) {
            assert(!is_white_space(b.first()));
            assert(is_white_space(b.last()));
            lemma_trimmed_ignores_ascii_case(a.drop_last(), b.drop_last());
        } else {
            assert(!is_white_space(b.first()));
            assert(!is_white_space(b.last()));
            if is_ascii_text(a) {
                assert forall|i: int| 0 <= i < b.len() implies (#[trigger] b[i]) as u32 <= 0x7F by {
                    assert(ascii_lowercase_char(a[i]) == ascii_lowercase_char(b[i]));
                }
            }
        }
    }
}

/// White space around a text does not change the cleaned text.
pub proof fn lemma_cleaned_ignores_surrounding_white_space(
    before: Seq<char>,
    s: Seq<char>,
    after: Seq<char>,
)
    requires
        is_blank(before),
        is_blank(after),
    ensures
        cleaned(before + s + after) == cleaned(s),
{
    lemma_trimmed_ignores_surrounding_white_space(before, s, after);
}

/// The case of the letters of an ASCII text does not change the cleaned
/// text.
pub proof fn lemma_cleaned_ignores_ascii_case(a: Seq<char>, b: Seq<char>)
    requires
        is_ascii_text(a),
        same_but_for_ascii_case(a, b),
    ensures
        cleaned(a) == cleaned(b),
{
    lemma_trimmed_ignores_ascii_case(a, b);
    let ta = trimmed(a);
    let tb = trimmed(b);
    assert(ta.map_values(|c: char| ascii_lowercase_char(c)) =~= tb.map_values(
        |c: char| ascii_lowercase_char(c),
    ));
}

/// Tells whether `c` is white space.
pub fn white_space(c: char) -> (b: bool)
    ensures
        b == is_white_space(c),
{
    let n: u32 = c as u32;
    (0x09 <= n && n <= 0x0D) || n == 0x20 || n == 0x85 || n == 0xA0 || n == 0x1680 || (0x2000 <= n
        && n <= 0x200A) || n == 0x2028 || n == 0x2029 || n == 0x202F || n == 0x205F || n == 0x3000
}

/// Removes the white space at both ends of `s`.
pub fn trim(s: &str) -> (t: &str)
    ensures
        t@ == trimmed(s@),
{
    let n: usize = s.unicode_len();
    let mut start: usize = 0;
    let mut end: usize = 0;
    let mut seen: usize = 0;
    for c in iter: s.chars()
        invariant
            iter.seq() == s@,
            n == s@.len(),
            seen == iter.index(),
            start <= end <= seen,
            start == end ==> end == 0,
            forall|i: int| 0 <= i < seen && !(start <= i < end) ==> is_white_space(s@[i]),
            start < end ==> !is_white_space(s@[start as int]) && !is_white_space(s@[end - 1]),
    {
        if !white_space(c) {
            if end == 0 {
                start = seen;
            }
            end = seen + 1;
        }
        seen += 1;
    }
    proof {
        let before = s@.subrange(0, start as int);
        let kept = s@.subrange(start as int, end as int);
        let after = s@.subrange(end as int, n as int);
        assert(s@ == before + kept + after);
        lemma_trimmed_ignores_surrounding_white_space(before, kept, after);
    }
    s.substring_char(start, end)
}

/// Calls `str::to_lowercase` of the standard library. Trusted: the result is
/// named [`unicode_lowercase`] of the argument, and for text of ASCII
/// characters alone it is the text with each of `'A'` to `'Z'` replaced by its
/// lower-case letter and every other character kept.
#[verifier::external_body]
fn to_lowercase(s: &str) -> (t: String)
    ensures
        t@ == unicode_lowercase(s@),
        is_ascii_text(s@) ==> t@ == s@.map_values(|c: char| ascii_lowercase_char(c)),
{
    s.to_lowercase()
}

/// Trims and lower-cases `s`.
pub fn clean(s: &str) -> (t: String)
    ensures
        t@ == cleaned(s@),
{
    to_lowercase(trim(s))
}

} // verus!
