//! The description of a script, read from a labelled comment near its top.
//!
//! A script describes itself in a comment of the form `# description: text`
//! or `# desc: text`, in any letter case, within its first lines. Lines are
//! separated by line feeds; a carriage return before the line feed belongs to
//! the separator. A line that is not UTF-8 holds no description.

use vstd::prelude::*;
use vstd::slice::*;
use vstd::string::*;
use vstd::utf8::*;
use crate::pattern::{capture, regex_capture};
use crate::text::{trim, trimmed};

verus! {

/// How many lines from the top of a script are searched.
pub const SCAN_LINES: usize = 5;

/// The regular expression of a description comment; its second group is the
/// text behind the colon.
pub const LABEL_PATTERN: &'static str = "(?i)^#\\s*(description|desc)\\s*:\\s*(.+)$";

/// The group of `LABEL_PATTERN` that holds the text.
pub const TEXT_GROUP: usize = 2;

/// What stands for the description of a script that gives none.
pub const NO_DESCRIPTION: &'static str = "(no description)";

/// The index of the first line feed at or after `from`, or the length of
/// `bytes` where none follows.
pub open spec fn line_end(bytes: Seq<u8>, from: int) -> int
    decreases bytes.len() - from,
{
    if 0 <= from < bytes.len() && bytes[from] != 0x0A {
        line_end(bytes, from + 1)
    } else {
        from
    }
}

/// The line that starts at `from`, without its separator.
pub open spec fn line_at(bytes: Seq<u8>, from: int) -> Seq<u8> {
    let end = line_end(bytes, from);
    if from < end < bytes.len() && bytes[end - 1] == 0x0D {
        bytes.subrange(from, end - 1)
    } else {
        bytes.subrange(from, end)
    }
}

/// Where the line after the one at `from` starts.
pub open spec fn next_line(bytes: Seq<u8>, from: int) -> int {
    let end = line_end(bytes, from);
    if end < bytes.len() {
        end + 1
    } else {
        end
    }
}

/// The text behind the label, where `line` is a description comment.
pub open spec fn line_label(line: Seq<u8>) -> Option<Seq<char>> {
    if valid_utf8(line) {
        regex_capture(LABEL_PATTERN@, decode_utf8(line), TEXT_GROUP as nat)
    } else {
        None
    }
}

/// The text behind the label of the first description comment among the
/// `budget` lines that start at `from`.
pub open spec fn first_label(bytes: Seq<u8>, from: int, budget: nat) -> Option<Seq<char>>
    decreases budget,
{
    if budget == 0 || from < 0 || from >= bytes.len() {
        None
    } else {
        match line_label(line_at(bytes, from)) {
            Some(text) => Some(text),
            None => first_label(bytes, next_line(bytes, from), (budget - 1) as nat),
        }
    }
}

/// The description that a label gives: its text without the whitespace
/// around it, or `NO_DESCRIPTION` where there is no label.
pub open spec fn described(label: Option<Seq<char>>) -> Seq<char> {
    match label {
        Some(text) => trimmed(text),
        None => NO_DESCRIPTION@,
    }
}

/// The description of a script with the content `bytes`.
pub open spec fn description_of(bytes: Seq<u8>) -> Seq<char> {
    described(first_label(bytes, 0, SCAN_LINES as nat))
}

/// Where line number `index` starts, counting from 0; the length of `bytes`
/// where there is no such line.
pub open spec fn line_start(bytes: Seq<u8>, index: nat) -> int
    decreases index,
{
    if index == 0 {
        0
    } else {
        next_line(bytes, line_start(bytes, (index - 1) as nat))
    }
}

/// The text behind the label in line number `index`, where that line is a
/// description comment.
pub open spec fn label_in_line(bytes: Seq<u8>, index: nat) -> Option<Seq<char>> {
    if line_start(bytes, index) < bytes.len() {
        line_label(line_at(bytes, line_start(bytes, index)))
    } else {
        None
    }
}

/// A line ends at or behind its start, and within the content.
pub proof fn lemma_line_end_bounds(bytes: Seq<u8>, from: int)
    requires
        0 <= from <= bytes.len(),
    ensures
        from <= line_end(bytes, from) <= bytes.len(),
        line_end(bytes, from) < bytes.len() ==> bytes[line_end(bytes, from)] == 0x0A,
        forall|i: int| from <= i < line_end(bytes, from) ==> bytes[i] != 0x0A,
    decreases bytes.len() - from,
{
    if from < bytes.len() && bytes[from] != 0x0A {
        lemma_line_end_bounds(bytes, from + 1);
    }
}

/// Lines start within the content, each at or behind the one before.
pub proof fn lemma_line_start_bounds(bytes: Seq<u8>, index: nat)
    ensures
        0 <= line_start(bytes, index) <= bytes.len(),
        index > 0 ==> line_start(bytes, (index - 1) as nat) <= line_start(bytes, index),
    decreases index,
{
    if index > 0 {
        lemma_line_start_bounds(bytes, (index - 1) as nat);
        lemma_line_end_bounds(bytes, line_start(bytes, (index - 1) as nat));
    }
}

/// A search passes over lines that are no description comments.
proof fn lemma_search_skips(bytes: Seq<u8>, passed: nat, budget: nat)
    requires
        passed <= budget,
        forall|j: nat| j < passed ==> #[trigger] label_in_line(bytes, j) is None,
    ensures
        first_label(bytes, 0, budget) == first_label(
            bytes,
            line_start(bytes, passed),
            (budget - passed) as nat,
        ),
    decreases passed,
{
    if passed > 0 {
        let last = (passed - 1) as nat;
        lemma_search_skips(bytes, last, budget);
        lemma_line_start_bounds(bytes, last);
        lemma_line_start_bounds(bytes, passed);
        assert(label_in_line(bytes, last) is None);
    }
}

/// The first description comment among the first `SCAN_LINES` lines gives
/// the description: the text behind its label, trimmed.
pub proof fn law_first_label_wins(bytes: Seq<u8>, index: nat, text: Seq<char>)
    requires
        index < SCAN_LINES,
        forall|j: nat| j < index ==> #[trigger] label_in_line(bytes, j) is None,
        label_in_line(bytes, index) == Some(text),
    ensures
        description_of(bytes) == trimmed(text),
{
    lemma_search_skips(bytes, index, SCAN_LINES as nat);
    lemma_line_start_bounds(bytes, index);
}

/// A script without a description comment among its first `SCAN_LINES`
/// lines has the description `NO_DESCRIPTION`, whatever its later lines
/// hold.
pub proof fn law_no_label_gives_placeholder(bytes: Seq<u8>)
    requires
        forall|j: nat| j < SCAN_LINES ==> #[trigger] label_in_line(bytes, j) is None,
    ensures
        description_of(bytes) == NO_DESCRIPTION@,
{
    lemma_search_skips(bytes, SCAN_LINES as nat, SCAN_LINES as nat);
}

/// Where the line starts that stands `count` lines behind the one at `from`.
pub open spec fn skip_lines(bytes: Seq<u8>, from: int, count: nat) -> int
    decreases count,
{
    if count == 0 {
        from
    } else {
        skip_lines(bytes, next_line(bytes, from), (count - 1) as nat)
    }
}

proof fn lemma_skip_lines_bounds(bytes: Seq<u8>, from: int, count: nat)
    requires
        0 <= from <= bytes.len(),
    ensures
        from <= skip_lines(bytes, from, count) <= bytes.len(),
        count > 0 && from < bytes.len() ==> from < skip_lines(bytes, from, count),
    decreases count,
{
    if count > 0 {
        lemma_line_end_bounds(bytes, from);
        lemma_skip_lines_bounds(bytes, next_line(bytes, from), (count - 1) as nat);
    }
}

proof fn lemma_skip_lines_step(bytes: Seq<u8>, from: int, count: nat)
    ensures
        skip_lines(bytes, from, count + 1) == next_line(bytes, skip_lines(bytes, from, count)),
    decreases count,
{
    reveal_with_fuel(skip_lines, 2);
    if count > 0 {
        lemma_skip_lines_step(bytes, next_line(bytes, from), (count - 1) as nat);
    }
}

proof fn lemma_line_start_skips(bytes: Seq<u8>, index: nat)
    ensures
        line_start(bytes, index) == skip_lines(bytes, 0, index),
    decreases index,
{
    if index > 0 {
        lemma_line_start_skips(bytes, (index - 1) as nat);
        lemma_skip_lines_step(bytes, 0, (index - 1) as nat);
    }
}

/// A line that ends within the first `cut` bytes ends at the same place in
/// them alone.
proof fn lemma_line_end_in_head(bytes: Seq<u8>, cut: int, from: int)
    requires
        0 <= from <= cut <= bytes.len(),
        line_end(bytes, from) < cut,
    ensures
        line_end(bytes.take(cut), from) == line_end(bytes, from),
    decreases cut - from,
{
    let head = bytes.take(cut);
    lemma_line_end_bounds(bytes, from);
    assert(head[from] == bytes[from]);
    if bytes[from] != 0x0A {
        lemma_line_end_in_head(bytes, cut, from + 1);
    }
}

/// A search through lines that all end within the first `cut` bytes finds
/// in them alone what it finds in the whole.
proof fn lemma_search_in_head(bytes: Seq<u8>, cut: int, from: int, budget: nat)
    requires
        0 <= from <= cut < bytes.len(),
        skip_lines(bytes, from, budget) <= cut,
    ensures
        first_label(bytes.take(cut), from, budget) == first_label(bytes, from, budget),
    decreases budget,
{
    let head = bytes.take(cut);
    if budget > 0 {
        lemma_skip_lines_bounds(bytes, from, budget);
        let end = line_end(bytes, from);
        let next = next_line(bytes, from);
        lemma_line_end_bounds(bytes, from);
        lemma_skip_lines_bounds(bytes, next, (budget - 1) as nat);
        assert(from < cut);
        assert(end < cut);
        lemma_line_end_in_head(bytes, cut, from);
        assert(line_at(head, from) =~= line_at(bytes, from));
        assert(next_line(head, from) == next);
        lemma_search_in_head(bytes, cut, next, (budget - 1) as nat);
    }
}

/// The description rests on the first `SCAN_LINES` lines alone: what stands
/// from line number `SCAN_LINES` on can be cut off without changing it.
pub proof fn law_later_lines_are_ignored(bytes: Seq<u8>)
    ensures
        description_of(bytes) == description_of(
            bytes.take(line_start(bytes, SCAN_LINES as nat)),
        ),
{
    let cut = line_start(bytes, SCAN_LINES as nat);
    lemma_line_start_bounds(bytes, SCAN_LINES as nat);
    lemma_line_start_skips(bytes, SCAN_LINES as nat);
    if cut < bytes.len() {
        lemma_search_in_head(bytes, cut, 0, SCAN_LINES as nat);
    } else {
        assert(bytes.take(cut) =~= bytes);
    }
}

/// Decodes `bytes` with `core::str::from_utf8`.
///
/// Trusted: the call succeeds exactly on valid UTF-8, and the text it gives
/// is encoded by the very bytes it was given.
#[verifier::external_body]
fn decode<'a>(bytes: &'a [u8]) -> (text: Option<&'a str>)
    ensures
        text is Some <==> valid_utf8(bytes@),
        text matches Some(t) ==> t.spec_bytes() == bytes@,
{
    core::str::from_utf8(bytes).ok()
}

fn find_line_end(bytes: &[u8], from: usize) -> (end: usize)
    requires
        from <= bytes@.len(),
    ensures
        end == line_end(bytes@, from as int),
        from <= end <= bytes@.len(),
{
    let n: usize = bytes.len();
    let mut end: usize = from;
    while end < n && bytes[end] != 0x0A
        invariant
            from <= end <= n,
            n == bytes@.len(),
            line_end(bytes@, from as int) == line_end(bytes@, end as int),
        decreases n - end,
    {
        end += 1;
    }
    end
}

/// Turns the text found behind a label, if any, into a description.
pub fn describe(label: Option<&str>) -> (description: String)
    ensures
        description@ == described(
            match label {
                Some(text) => Some(text@),
                None => None,
            },
        ),
{
    match label {
        Some(text) => String::from_str(trim(text)),
        None => String::from_str(NO_DESCRIPTION),
    }
}

/// Reads the description of a script out of its content.
///
/// Only the first `SCAN_LINES` lines are searched, and the first description
/// comment among them counts.
pub fn extract_description(content: &[u8]) -> (description: String)
    ensures
        description@ == description_of(content@),
{
    let n: usize = content.len();
    let mut from: usize = 0;
    let mut budget: usize = SCAN_LINES;
    while budget > 0 && from < n
        invariant
            from <= n,
            n == content@.len(),
            first_label(content@, 0, SCAN_LINES as nat) == first_label(
                content@,
                from as int,
                budget as nat,
            ),
        decreases budget,
    {
        let end: usize = find_line_end(content, from);
        let stop: usize = if from < end && end < n && content[end - 1] == 0x0D {
            end - 1
        } else {
            end
        };
        let line = slice_subrange(content, from, stop);
        if let Some(text) = decode(line) {
            proof {
                encode_utf8_decode_utf8(text@);
            }
            if let Some(found) = capture(LABEL_PATTERN, text, TEXT_GROUP) {
                return describe(Some(found.as_str()));
            }
        }
        from = if end < n {
            end + 1
        } else {
            end
        };
        budget -= 1;
    }
    describe(None)
}

} // verus!
