//! Whitespace, trimming, splitting into words and padding, over characters.

use vstd::prelude::*;
use vstd::string::*;

verus! {

/// Whether `c` carries the Unicode property `White_Space`.
pub open spec fn is_space(c: char) -> bool {
    let n = c as u32;
    ||| 0x09 <= n <= 0x0D
    ||| n == 0x20
    ||| n == 0x85
    ||| n == 0xA0
    ||| n == 0x1680
    ||| 0x2000 <= n <= 0x200A
    ||| n == 0x2028
    ||| n == 0x2029
    ||| n == 0x202F
    ||| n == 0x205F
    ||| n == 0x3000
}

/// The first index at or after `from` that holds no whitespace, or the
/// length of `s` where only whitespace follows.
pub open spec fn skip_spaces(s: Seq<char>, from: int) -> int
    decreases s.len() - from,
{
    if 0 <= from < s.len() && is_space(s[from]) {
        skip_spaces(s, from + 1)
    } else {
        from
    }
}

/// The end of the text that is left of `s[floor..upto]` once the whitespace
/// at its end is dropped.
pub open spec fn drop_trailing_spaces(s: Seq<char>, floor: int, upto: int) -> int
    decreases upto - floor,
{
    if 0 <= floor < upto <= s.len() && is_space(s[upto - 1]) {
        drop_trailing_spaces(s, floor, upto - 1)
    } else {
        upto
    }
}

/// `s` without the whitespace at its two ends.
pub open spec fn trimmed(s: Seq<char>) -> Seq<char> {
    let start = skip_spaces(s, 0);
    let end = drop_trailing_spaces(s, start, s.len() as int);
    s.subrange(start, end)
}

/// The first index at or after `from` that holds whitespace, or the length
/// of `s` where none follows.
pub open spec fn word_end(s: Seq<char>, from: int) -> int
    decreases s.len() - from,
{
    if 0 <= from < s.len() && !is_space(s[from]) {
        word_end(s, from + 1)
    } else {
        from
    }
}

/// The words of `s` that start at or after `from`: the longest runs of
/// characters that are not whitespace, in their order.
pub open spec fn words_from(s: Seq<char>, from: int) -> Seq<Seq<char>>
    decreases s.len() - from,
    via words_from_terminates
{
    if from < 0 || from >= s.len() {
        Seq::empty()
    } else if is_space(s[from]) {
        words_from(s, from + 1)
    } else {
        seq![s.subrange(from, word_end(s, from))] + words_from(s, word_end(s, from))
    }
}

#[via_fn]
proof fn words_from_terminates(s: Seq<char>, from: int) {
    if 0 <= from < s.len() {
        lemma_word_end_bounds(s, from);
    }
}

/// The words of `s`.
pub open spec fn words(s: Seq<char>) -> Seq<Seq<char>> {
    words_from(s, 0)
}

/// A word ends behind its start and within the text.
pub proof fn lemma_word_end_bounds(s: Seq<char>, from: int)
    requires
        0 <= from <= s.len(),
    ensures
        from <= word_end(s, from) <= s.len(),
        from < s.len() && !is_space(s[from]) ==> from < word_end(s, from),
    decreases s.len() - from,
{
    if from < s.len() && !is_space(s[from]) {
        lemma_word_end_bounds(s, from + 1);
    }
}

/// The texts of `parts` in their order, with `separator` between each two.
pub open spec fn joined(parts: Seq<Seq<char>>, separator: Seq<char>) -> Seq<char>
    decreases parts.len(),
{
    if parts.len() == 0 {
        Seq::empty()
    } else if parts.len() == 1 {
        parts[0]
    } else {
        joined(parts.drop_last(), separator) + separator + parts.last()
    }
}

/// `count` spaces.
pub open spec fn spaces(count: nat) -> Seq<char> {
    Seq::new(count, |i: int| ' ')
}

/// `s`, followed by as many spaces as it lacks to be `width` characters
/// long.
pub open spec fn padded(s: Seq<char>, width: nat) -> Seq<char> {
    if s.len() >= width {
        s
    } else {
        s + spaces((width - s.len()) as nat)
    }
}

/// Everything between `from` and where `skip_spaces` stops is whitespace,
/// and what stands there, if anything, is not.
pub proof fn lemma_skip_spaces(s: Seq<char>, from: int)
    requires
        0 <= from <= s.len(),
    ensures
        from <= skip_spaces(s, from) <= s.len(),
        forall|i: int| from <= i < skip_spaces(s, from) ==> is_space(s[i]),
        skip_spaces(s, from) < s.len() ==> !is_space(s[skip_spaces(s, from)]),
    decreases s.len() - from,
{
    if from < s.len() && is_space(s[from]) {
        lemma_skip_spaces(s, from + 1);
    }
}

/// Everything between where `drop_trailing_spaces` stops and `upto` is
/// whitespace, and what stands before it, if anything is left, is not.
pub proof fn lemma_drop_trailing_spaces(s: Seq<char>, floor: int, upto: int)
    requires
        0 <= floor <= upto <= s.len(),
    ensures
        floor <= drop_trailing_spaces(s, floor, upto) <= upto,
        forall|i: int| drop_trailing_spaces(s, floor, upto) <= i < upto ==> is_space(s[i]),
        floor < drop_trailing_spaces(s, floor, upto) ==> !is_space(
            s[drop_trailing_spaces(s, floor, upto) - 1],
        ),
    decreases upto - floor,
{
    if floor < upto && is_space(s[upto - 1]) {
        lemma_drop_trailing_spaces(s, floor, upto - 1);
    }
}

/// Trimming takes away whitespace only, and all of it at both ends: `s` is
/// whitespace, then `trimmed(s)`, then whitespace, and `trimmed(s)` neither
/// starts nor ends with whitespace.
pub proof fn law_trimmed_is_tight(s: Seq<char>)
    ensures
        exists|before: Seq<char>, after: Seq<char>|
            {
                &&& s == before + trimmed(s) + after
                &&& forall|i: int| 0 <= i < before.len() ==> is_space(#[trigger] before[i])
                &&& forall|i: int| 0 <= i < after.len() ==> is_space(#[trigger] after[i])
            },
        trimmed(s).len() > 0 ==> !is_space(trimmed(s).first()) && !is_space(trimmed(s).last()),
{
    let start = skip_spaces(s, 0);
    lemma_skip_spaces(s, 0);
    let end = drop_trailing_spaces(s, start, s.len() as int);
    lemma_drop_trailing_spaces(s, start, s.len() as int);
    let before = s.subrange(0, start);
    let after = s.subrange(end, s.len() as int);
    assert(s =~= before + trimmed(s) + after);
}

/// A text that neither starts nor ends with whitespace is its own trimming.
pub proof fn law_trimmed_keeps_tight_text(s: Seq<char>)
    requires
        s.len() > 0 ==> !is_space(s.first()) && !is_space(s.last()),
    ensures
        trimmed(s) == s,
{
    assert(trimmed(s) =~= s);
}

/// No word is empty, and no word holds whitespace.
pub proof fn law_words_hold_no_space(s: Seq<char>, from: int, index: int)
    requires
        0 <= from,
        0 <= index < words_from(s, from).len(),
    ensures
        words_from(s, from)[index].len() > 0,
        forall|i: int|
            0 <= i < words_from(s, from)[index].len() ==> !is_space(
                #[trigger] words_from(s, from)[index][i],
            ),
    decreases s.len() - from,
{
    if from >= s.len() {
    } else if is_space(s[from]) {
        law_words_hold_no_space(s, from + 1, index);
    } else {
        lemma_word_end_bounds(s, from);
        if index == 0 {
            lemma_word_holds_no_space(s, from);
        } else {
            law_words_hold_no_space(s, word_end(s, from), index - 1);
        }
    }
}

/// Nothing between `from` and where `word_end` stops is whitespace.
pub proof fn lemma_word_holds_no_space(s: Seq<char>, from: int)
    requires
        0 <= from <= s.len(),
    ensures
        forall|i: int| from <= i < word_end(s, from) ==> !is_space(s[i]),
    decreases s.len() - from,
{
    if from < s.len() && !is_space(s[from]) {
        lemma_word_holds_no_space(s, from + 1);
    }
}

/// Tells whether a character is whitespace.
pub fn is_space_char(c: char) -> (b: bool)
    ensures
        b == is_space(c),
{
    let n: u32 = c as u32;
    (0x09 <= n && n <= 0x0D) || n == 0x20 || n == 0x85 || n == 0xA0 || n == 0x1680 || (0x2000 <= n
        && n <= 0x200A) || n == 0x2028 || n == 0x2029 || n == 0x202F || n == 0x205F || n == 0x3000
}

/// Returns the part of `s` between its leading and its trailing whitespace.
pub fn trim<'a>(s: &'a str) -> (t: &'a str)
    ensures
        t@ == trimmed(s@),
{
    let n: usize = s.unicode_len();
    let mut start: usize = 0;
    while start < n && is_space_char(s.get_char(start))
        invariant
            start <= n,
            n == s@.len(),
            skip_spaces(s@, 0) == skip_spaces(s@, start as int),
        decreases n - start,
    {
        start += 1;
    }
    let mut end: usize = n;
    while end > start && is_space_char(s.get_char(end - 1))
        invariant
            start <= end <= n,
            n == s@.len(),
            drop_trailing_spaces(s@, start as int, n as int) == drop_trailing_spaces(
                s@,
                start as int,
                end as int,
            ),
        decreases end - start,
    {
        end -= 1;
    }
    s.substring_char(start, end)
}

/// Splits `s` at its whitespace into words; none of them is empty.
pub fn split_words(s: &str) -> (found: Vec<String>)
    ensures
        found.deep_view() == words(s@),
{
    let n: usize = s.unicode_len();
    let mut found: Vec<String> = Vec::new();
    let mut at: usize = 0;
    while at < n
        invariant
            at <= n,
            n == s@.len(),
            words(s@) == found.deep_view() + words_from(s@, at as int),
        decreases n - at,
    {
        if is_space_char(s.get_char(at)) {
            at += 1;
        } else {
            let start: usize = at;
            at += 1;
            while at < n && !is_space_char(s.get_char(at))
                invariant
                    start < at <= n,
                    n == s@.len(),
                    !is_space(s@[start as int]),
                    word_end(s@, start as int) == word_end(s@, at as int),
                decreases n - at,
            {
                at += 1;
            }
            let word = String::from_str(s.substring_char(start, at));
            let ghost before = found.deep_view();
            found.push(word);
            assert(found.deep_view() =~= before.push(s@.subrange(start as int, at as int)));
            assert(before + words_from(s@, start as int) =~= found.deep_view() + words_from(
                s@,
                at as int,
            ));
        }
    }
    assert(found.deep_view() + words_from(s@, n as int) =~= found.deep_view());
    found
}

/// Joins `parts` into one text, with `separator` between each two.
pub fn join(parts: &Vec<String>, separator: &str) -> (text: String)
    ensures
        text@ == joined(parts.deep_view(), separator@),
{
    let mut text = String::new();
    let mut at: usize = 0;
    while at < parts.len()
        invariant
            at <= parts.len(),
            text@ == joined(parts.deep_view().take(at as int), separator@),
        decreases parts.len() - at,
    {
        if at > 0 {
            text.append(separator);
        }
        text.append(parts[at].as_str());
        proof {
            let done = parts.deep_view().take(at + 1);
            assert(done.drop_last() =~= parts.deep_view().take(at as int));
            assert(done.last() == parts[at as int]@);
        }
        at += 1;
    }
    assert(parts.deep_view().take(at as int) =~= parts.deep_view());
    text
}

/// Tells whether two texts are the same.
pub fn same_text(left: &str, right: &str) -> (same: bool)
    ensures
        same == (left@ == right@),
{
    String::from_str(left) == String::from_str(right)
}

/// Fills `s` up with spaces at its end until it is `width` characters long.
pub fn pad(s: &str, width: usize) -> (text: String)
    ensures
        text@ == padded(s@, width as nat),
{
    let mut text = String::from_str(s);
    let mut length: usize = s.unicode_len();
    proof {
        reveal_strlit(" ");
    }
    while length < width
        invariant
            s@.len() <= length,
            length <= width || length == s@.len(),
            text@ == s@ + spaces((length - s@.len()) as nat),
            " "@ == seq![' '],
        decreases width - length,
    {
        text.append(" ");
        assert(text@ =~= s@ + spaces((length + 1 - s@.len()) as nat));
        length += 1;
    }
    assert(s@ + spaces(0) =~= s@);
    text
}

} // verus!
