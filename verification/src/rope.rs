//! The rope that holds a document's text, and what this library relies on
//! from it. Nothing in this file is proved: each function calls the rope, and
//! its contract states what the rope's documentation promises of the call.

use vstd::prelude::*;
use vstd::utf8::encode_utf8;
use ropey::Rope;
use unicode_segmentation::UnicodeSegmentation;

verus! {

#[verifier::external_type_specification]
#[verifier::external_body]
pub struct ExRope(ropey::Rope);

/// The text that a rope holds, as its characters in order.
pub uninterp spec fn rope_text(rope: Rope) -> Seq<char>;

/// The number of lines that the rope counts in a text.
pub uninterp spec fn line_count(text: Seq<char>) -> usize;

/// The place, counted in characters, at which the rope has a line of a text start.
pub uninterp spec fn line_start(text: Seq<char>, line: usize) -> usize;

/// The place, counted in bytes, at which the rope has a line of a text start.
pub uninterp spec fn line_start_byte(text: Seq<char>, line: usize) -> usize;

/// The characters that the rope hands out as a line of a text.
pub uninterp spec fn line_text(text: Seq<char>, line: usize) -> Seq<char>;

/// The number of extended grapheme clusters of a text.
pub uninterp spec fn grapheme_count(text: Seq<char>) -> usize;

/// Calls `Rope::from_str`: a rope that holds the given text.
#[verifier::external_body]
pub(crate) fn from_str(text: &str) -> (rope: Rope)
    ensures
        rope_text(rope) == text@,
{
    Rope::from_str(text)
}

/// Calls `Rope::clone`: a second rope that holds the same text.
#[verifier::external_body]
pub(crate) fn copy(rope: &Rope) -> (twin: Rope)
    ensures
        rope_text(twin) == rope_text(*rope),
{
    rope.clone()
}

/// Calls `String::from` on the rope: the text that the rope holds.
#[verifier::external_body]
pub(crate) fn to_string(rope: &Rope) -> (text: String)
    ensures
        text@ == rope_text(*rope),
{
    String::from(rope)
}

/// Calls `Rope::len_chars`: the number of characters that the rope holds.
#[verifier::external_body]
pub(crate) fn len_chars(rope: &Rope) -> (count: usize)
    ensures
        count == rope_text(*rope).len(),
{
    rope.len_chars()
}

/// Calls `Rope::len_bytes`: the number of bytes of the text, which the rope
/// keeps as UTF-8.
#[verifier::external_body]
pub(crate) fn len_bytes(rope: &Rope) -> (count: usize)
    ensures
        count == encode_utf8(rope_text(*rope)).len(),
{
    rope.len_bytes()
}

/// Calls `Rope::len_lines`: the number of lines, which is one more than the
/// number of line breaks and so never zero.
#[verifier::external_body]
pub(crate) fn len_lines(rope: &Rope) -> (count: usize)
    ensures
        count == line_count(rope_text(*rope)),
        count >= 1,
{
    rope.len_lines()
}

/// Calls `Rope::line_to_char`, which takes a line up to and with the one past
/// the last, and panics on a later one.
#[verifier::external_body]
pub(crate) fn line_to_char(rope: &Rope, line: usize) -> (index: usize)
    requires
        line <= line_count(rope_text(*rope)),
    ensures
        index == line_start(rope_text(*rope), line),
{
    rope.line_to_char(line)
}

/// Calls `Rope::line_to_byte`, which takes a line up to and with the one past
/// the last, and panics on a later one.
#[verifier::external_body]
pub(crate) fn line_to_byte(rope: &Rope, line: usize) -> (index: usize)
    requires
        line <= line_count(rope_text(*rope)),
    ensures
        index == line_start_byte(rope_text(*rope), line),
{
    rope.line_to_byte(line)
}

/// Calls `Rope::line`, which panics on a line that the rope does not have,
/// and copies the line out.
#[verifier::external_body]
pub(crate) fn line(rope: &Rope, index: usize) -> (text: String)
    requires
        index < line_count(rope_text(*rope)),
    ensures
        text@ == line_text(rope_text(*rope), index),
{
    String::from(rope.line(index))
}

/// Calls `Rope::slice` with the characters from `start` up to `end`, and
/// copies them out. The rope panics where the range runs backwards or past
/// the end of the text.
#[verifier::external_body]
pub(crate) fn slice(rope: &Rope, start: usize, end: usize) -> (text: String)
    requires
        start <= end <= rope_text(*rope).len(),
    ensures
        text@ == rope_text(*rope).subrange(start as int, end as int),
{
    String::from(rope.slice(start..end))
}

/// Calls `Rope::insert`: the text goes in before the character at `index`.
/// The rope panics on an index past the end of its text.
#[verifier::external_body]
pub(crate) fn insert(rope: &mut Rope, index: usize, text: &str)
    requires
        index <= rope_text(*old(rope)).len(),
    ensures
        rope_text(*final(rope)) == rope_text(*old(rope)).subrange(0, index as int) + text@
            + rope_text(*old(rope)).subrange(index as int, rope_text(*old(rope)).len() as int),
{
    rope.insert(index, text)
}

/// Calls `Rope::remove` with the characters from `start` up to `end`. The
/// rope panics where the range runs backwards or past the end of the text.
#[verifier::external_body]
pub(crate) fn remove(rope: &mut Rope, start: usize, end: usize)
    requires
        start <= end <= rope_text(*old(rope)).len(),
    ensures
        rope_text(*final(rope)) == rope_text(*old(rope)).subrange(0, start as int) + rope_text(
            *old(rope),
        ).subrange(end as int, rope_text(*old(rope)).len() as int),
{
    rope.remove(start..end)
}

/// Calls `graphemes` of `unicode_segmentation`, for extended clusters, and
/// counts what it yields.
#[verifier::external_body]
pub(crate) fn graphemes(text: &str) -> (count: usize)
    ensures
        count == grapheme_count(text@),
{
    text.graphemes(true).count()
}

} // verus!
