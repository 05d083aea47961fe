//! The document that is edited: its text, kept in a rope, the file that it
//! came from, and whether it has changed since it was saved.

use vstd::prelude::*;
use vstd::utf8::encode_utf8;
use ropey::Rope;
use crate::rope::{grapheme_count, line_count, line_start, line_start_byte, line_text, rope_text};
use crate::text::Position;

verus! {

/// A stretch of a text, from `start` up to `end`.
#[derive(Clone, Copy, Debug, PartialEq, Eq, Structural)]
pub struct ByteRange {
    pub start: usize,
    pub end: usize,
}

/// The file that a document belongs to.
#[derive(Debug)]
pub struct FileData {
    name: String,
    uri: String,
}

/// A document: its text and its file.
#[derive(Debug)]
pub struct Document {
    rope: Rope,
    file_data: FileData,
    is_saved: bool,
}

/// The place in `text`, counted in characters, that `position` points to:
/// so many characters after the start of its line.
pub open spec fn spot(text: Seq<char>, position: Position) -> int {
    line_start(text, position.line) + position.character
}

/// Whether `position` names a line of `text`, or the one past the last, and
/// its place can be counted.
pub open spec fn reachable(text: Seq<char>, position: Position) -> bool {
    position.line <= line_count(text) && spot(text, position) <= usize::MAX
}

/// `text` without its characters from `start` up to `end`.
pub open spec fn cut(text: Seq<char>, start: int, end: int) -> Seq<char> {
    text.subrange(0, start) + text.subrange(end, text.len() as int)
}

/// `text` with `inserted` put in before the character at `at`.
pub open spec fn spliced(text: Seq<char>, at: int, inserted: Seq<char>) -> Seq<char> {
    text.subrange(0, at) + inserted + text.subrange(at, text.len() as int)
}

/// Whether text can be inserted at `position`: the position can be reached
/// and does not lie past the end of the text.
pub open spec fn can_insert(text: Seq<char>, position: Position) -> bool {
    reachable(text, position) && spot(text, position) <= text.len()
}

/// Whether a deletion from `start` to `end` takes anything out: the line in
/// which it starts is not empty, and its end is no greater than the number
/// of bytes of the text.
pub open spec fn removes(text: Seq<char>, start: Position, end: Position) -> bool {
    line_text(text, start.line).len() != 0 && spot(text, end) <= encode_utf8(text).len()
}

/// Whether a deletion from `start` to `end` can be asked for: the line in
/// which it starts exists, both positions can be reached, and where it takes
/// something out, that is a stretch of the text.
pub open spec fn can_delete(text: Seq<char>, start: Position, end: Position) -> bool {
    &&& start.line < line_count(text)
    &&& reachable(text, start)
    &&& reachable(text, end)
    &&& removes(text, start, end) ==> spot(text, start) <= spot(text, end) <= text.len()
}

/// The text after a deletion from `start` to `end`.
pub open spec fn after_delete(text: Seq<char>, start: Position, end: Position) -> Seq<char> {
    if removes(text, start, end) {
        cut(text, spot(text, start), spot(text, end))
    } else {
        text
    }
}

/// What a deletion from `start` to `end` reports: the stretch that it took
/// out, if it took one out.
pub open spec fn deleted(text: Seq<char>, start: Position, end: Position) -> Option<ByteRange> {
    if removes(text, start, end) {
        Some(ByteRange { start: spot(text, start) as usize, end: spot(text, end) as usize })
    } else {
        None
    }
}

/// Whether the text from `start` to `end` can be replaced: it can be
/// deleted, and after that text can be inserted at `start`.
pub open spec fn can_replace(text: Seq<char>, start: Position, end: Position) -> bool {
    can_delete(text, start, end) && can_insert(after_delete(text, start, end), start)
}

impl Document {
    /// The text of the document.
    pub closed spec fn text(self) -> Seq<char> {
        rope_text(self.rope)
    }

    /// Whether the document has not changed since it was saved.
    pub closed spec fn saved(self) -> bool {
        self.is_saved
    }

    /// The name of the document's file.
    pub closed spec fn name(self) -> String {
        self.file_data.name
    }

    /// The URI of the document's file.
    pub closed spec fn address(self) -> String {
        self.file_data.uri
    }

    /// Whether `other` is this document but for its text and for whether it is saved.
    pub open spec fn same_file(self, other: Document) -> bool {
        self.name() == other.name() && self.address() == other.address()
    }

    /// The document of the file `name`, known to the server as `uri`, with
    /// the text that was read from it.
    pub fn new(name: String, uri: String, text: &str) -> (document: Document)
        ensures
            document.text() == text@,
            document.saved(),
            document.name() == name,
            document.address() == uri,
    {
        Document {
            rope: crate::rope::from_str(text),
            file_data: FileData { name, uri },
            is_saved: true,
        }
    }

    pub fn uri(&self) -> (uri: &String)
        ensures
            *uri == self.address(),
    {
        &self.file_data.uri
    }

    pub fn filename(&self) -> (name: &String)
        ensures
            *name == self.name(),
    {
        &self.file_data.name
    }

    pub fn is_saved(&self) -> (saved: bool)
        ensures
            saved == self.saved(),
    {
        self.is_saved
    }

    /// Notes that the document's text was written to its file.
    pub fn mark_saved(&mut self)
        ensures
            final(self).saved(),
            final(self).text() == old(self).text(),
            final(self).same_file(*old(self)),
    {
        self.is_saved = true;
    }

    /// The whole text.
    pub fn to_string(&self) -> (text: String)
        ensures
            text@ == self.text(),
    {
        crate::rope::to_string(&self.rope)
    }

    /// The whole text, from its first character to its last.
    pub fn slice_all(&self) -> (text: String)
        ensures
            text@ == self.text(),
    {
        crate::rope::to_string(&self.rope)
    }

    /// The lines of the document, each with the break that ends it, in order.
    pub fn lines(&self) -> (lines: Vec<String>)
        ensures
            lines@.len() == line_count(self.text()),
            forall|i: int|
                0 <= i < lines@.len() ==> (#[trigger] lines@[i])@ == line_text(
                    self.text(),
                    i as usize,
                ),
    {
        let count = crate::rope::len_lines(&self.rope);
        let mut lines: Vec<String> = Vec::new();
        let mut i: usize = 0;
        while i < count
            invariant
                i <= count,
                count == line_count(self.text()),
                lines@.len() == i,
                forall|k: int|
                    0 <= k < i ==> (#[trigger] lines@[k])@ == line_text(self.text(), k as usize),
            decreases count - i,
        {
            lines.push(crate::rope::line(&self.rope, i));
            i += 1;
        }
        lines
    }

    /// The number of lines.
    pub fn len(&self) -> (lines: usize)
        ensures
            lines == line_count(self.text()),
            lines >= 1,
    {
        crate::rope::len_lines(&self.rope)
    }

    /// Whether the document has no line at all, which no document has: a
    /// text without a line break is one line.
    pub fn is_empty(&self) -> (empty: bool)
        ensures
            empty == (line_count(self.text()) == 0),
            !empty,
    {
        crate::rope::len_lines(&self.rope) == 0
    }

    /// The number of characters.
    pub fn len_chars(&self) -> (count: usize)
        ensures
            count == self.text().len(),
    {
        crate::rope::len_chars(&self.rope)
    }

    /// The place of `position` in the text, counted in characters.
    pub fn get_character_pos(&self, position: &Position) -> (index: usize)
        requires
            reachable(self.text(), *position),
        ensures
            index == spot(self.text(), *position),
    {
        crate::rope::line_to_char(&self.rope, position.line()) + position.character()
    }

    /// The place of `position` in the text, counted in characters, where the
    /// position can be reached.
    pub fn try_character_pos(&self, position: &Position) -> (index: Option<usize>)
        ensures
            index == (if reachable(self.text(), *position) {
                Some(spot(self.text(), *position) as usize)
            } else {
                None
            }),
    {
        if position.line() > crate::rope::len_lines(&self.rope) {
            return None;
        }
        let start = crate::rope::line_to_char(&self.rope, position.line());
        start.checked_add(position.character())
    }

    /// The characters from `start` up to `end`.
    pub fn str_from_range(&self, start: usize, end: usize) -> (text: String)
        requires
            start <= end <= self.text().len(),
        ensures
            text@ == self.text().subrange(start as int, end as int),
    {
        crate::rope::slice(&self.rope, start, end)
    }

    /// The place at which a line starts, counted in bytes; for a line past
    /// the one after the last, the number of bytes of the text.
    pub fn get_line_bytes(&self, line_number: usize) -> (index: usize)
        ensures
            index == (if line_number > line_count(self.text()) {
                encode_utf8(self.text()).len() as usize
            } else {
                line_start_byte(self.text(), line_number)
            }),
    {
        if line_number > crate::rope::len_lines(&self.rope) {
            return crate::rope::len_bytes(&self.rope);
        }
        crate::rope::line_to_byte(&self.rope, line_number)
    }

    /// The length of a line, counted in what a reader takes for one character.
    pub fn line_len(&self, y: usize) -> (length: usize)
        requires
            y < line_count(self.text()),
        ensures
            length == grapheme_count(line_text(self.text(), y)),
    {
        let line = crate::rope::line(&self.rope, y);
        crate::rope::graphemes(line.as_str())
    }

    /// The length of a line, where the document has that line.
    pub fn try_line_len(&self, y: usize) -> (length: Option<usize>)
        ensures
            length == (if y < line_count(self.text()) {
                Some(grapheme_count(line_text(self.text(), y)))
            } else {
                None
            }),
    {
        if y < crate::rope::len_lines(&self.rope) {
            Some(self.line_len(y))
        } else {
            None
        }
    }

    /// A line, where the document has it.
    pub fn get_line(&self, line_idx: usize) -> (line: Option<String>)
        ensures
            line is Some == (line_idx < line_count(self.text())),
            line matches Some(text) ==> text@ == line_text(self.text(), line_idx),
    {
        if line_idx < crate::rope::len_lines(&self.rope) {
            Some(crate::rope::line(&self.rope, line_idx))
        } else {
            None
        }
    }

    /// The last line.
    pub fn last_line(&self) -> (line: Option<String>)
        ensures
            line matches Some(text) && text@ == line_text(
                self.text(),
                (line_count(self.text()) - 1) as usize,
            ),
    {
        self.get_line(crate::rope::len_lines(&self.rope) - 1)
    }

    /// Tells whether text can be inserted at `position`.
    pub fn accepts_insert(&self, position: &Position) -> (ok: bool)
        ensures
            ok == can_insert(self.text(), *position),
    {
        match self.try_character_pos(position) {
            Some(index) => index <= crate::rope::len_chars(&self.rope),
            None => false,
        }
    }

    /// Puts `character` into the text at `position` and returns the place
    /// where it went, counted in characters. The document counts as changed.
    pub fn insert(&mut self, position: &Position, character: String) -> (index: usize)
        requires
            can_insert(old(self).text(), *position),
        ensures
            index == spot(old(self).text(), *position),
            final(self).text() == spliced(old(self).text(), index as int, character@),
            !final(self).saved(),
            final(self).same_file(*old(self)),
    {
        let start_idx = self.get_character_pos(position);
        crate::rope::insert(&mut self.rope, start_idx, character.as_str());
        self.is_saved = false;
        start_idx
    }

    /// Puts `character` into the text at `position` where that can be done,
    /// and leaves the document as it is where it cannot.
    pub fn try_insert(&mut self, position: &Position, character: String) -> (index: Option<usize>)
        ensures
            can_insert(old(self).text(), *position) ==> {
                &&& index == Some(spot(old(self).text(), *position) as usize)
                &&& final(self).text() == spliced(
                    old(self).text(),
                    spot(old(self).text(), *position),
                    character@,
                )
                &&& !final(self).saved()
            },
            !can_insert(old(self).text(), *position) ==> {
                &&& index is None
                &&& final(self).text() == old(self).text()
                &&& final(self).saved() == old(self).saved()
            },
            final(self).same_file(*old(self)),
    {
        if self.accepts_insert(position) {
            Some(self.insert(position, character))
        } else {
            None
        }
    }

    /// Tells whether a deletion from `start_idx` to `end_idx` can be asked for.
    pub fn accepts_delete(&self, start_idx: &Position, end_idx: &Position) -> (ok: bool)
        ensures
            ok == can_delete(self.text(), *start_idx, *end_idx),
    {
        if start_idx.line() >= crate::rope::len_lines(&self.rope) {
            return false;
        }
        let start = self.try_character_pos(start_idx);
        let end = self.try_character_pos(end_idx);
        match (start, end) {
            (Some(start), Some(end)) => {
                let line = crate::rope::line(&self.rope, start_idx.line());
                let takes = line.as_str().unicode_len() != 0 && end <= crate::rope::len_bytes(
                    &self.rope,
                );
                !takes || (start <= end && end <= crate::rope::len_chars(&self.rope))
            },
            _ => false,
        }
    }

    /// Takes out the text from `start_idx` up to `end_idx`, and returns the
    /// stretch that was taken out, counted in characters. Nothing is taken
    /// out, and nothing returned, where the line in which the deletion starts
    /// is empty or `end_idx` lies past the number of bytes of the text.
    pub fn delete(&mut self, start_idx: &Position, end_idx: &Position) -> (range: Option<
        ByteRange,
    >)
        requires
            can_delete(old(self).text(), *start_idx, *end_idx),
        ensures
            range == deleted(old(self).text(), *start_idx, *end_idx),
            final(self).text() == after_delete(old(self).text(), *start_idx, *end_idx),
            final(self).saved() == (old(self).saved() && range is None),
            final(self).same_file(*old(self)),
    {
        let start_line = crate::rope::line(&self.rope, start_idx.line());
        let start_idx = self.get_character_pos(start_idx);
        let end_idx = self.get_character_pos(end_idx);
        if start_line.as_str().unicode_len() != 0 && end_idx <= crate::rope::len_bytes(&self.rope) {
            crate::rope::remove(&mut self.rope, start_idx, end_idx);
            self.is_saved = false;
            return Some(ByteRange { start: start_idx, end: end_idx });
        }
        None
    }

    /// Takes out the text from `start_idx` up to `end_idx` where that can be
    /// asked for, and leaves the document as it is where it cannot.
    pub fn try_delete(&mut self, start_idx: &Position, end_idx: &Position) -> (range: Option<
        ByteRange,
    >)
        ensures
            can_delete(old(self).text(), *start_idx, *end_idx) ==> {
                &&& range == deleted(old(self).text(), *start_idx, *end_idx)
                &&& final(self).text() == after_delete(old(self).text(), *start_idx, *end_idx)
                &&& final(self).saved() == (old(self).saved() && range is None)
            },
            !can_delete(old(self).text(), *start_idx, *end_idx) ==> {
                &&& range is None
                &&& final(self).text() == old(self).text()
                &&& final(self).saved() == old(self).saved()
            },
            final(self).same_file(*old(self)),
    {
        if self.accepts_delete(start_idx, end_idx) {
            self.delete(start_idx, end_idx)
        } else {
            None
        }
    }

    /// Replaces the text from `start_idx` up to `end_idx` by `character`: the
    /// text is deleted, and `character` is inserted at `start_idx`. Returns
    /// what the deletion returns.
    pub fn replace(&mut self, start_idx: &Position, end_idx: &Position, character: String) -> (range:
        Option<ByteRange>)
        requires
            can_replace(old(self).text(), *start_idx, *end_idx),
        ensures
            range == deleted(old(self).text(), *start_idx, *end_idx),
            final(self).text() == spliced(
                after_delete(old(self).text(), *start_idx, *end_idx),
                spot(after_delete(old(self).text(), *start_idx, *end_idx), *start_idx),
                character@,
            ),
            !final(self).saved(),
            final(self).same_file(*old(self)),
    {
        let result = self.delete(start_idx, end_idx);
        self.insert(start_idx, character);
        result
    }

    /// Tells whether the text from `start_idx` up to `end_idx` can be replaced.
    pub fn accepts_replace(&self, start_idx: &Position, end_idx: &Position) -> (ok: bool)
        ensures
            ok == can_replace(self.text(), *start_idx, *end_idx),
    {
        if !self.accepts_delete(start_idx, end_idx) {
            return false;
        }
        let mut probe = Document {
            rope: crate::rope::copy(&self.rope),
            file_data: FileData { name: String::new(), uri: String::new() },
            is_saved: true,
        };
        probe.delete(start_idx, end_idx);
        probe.accepts_insert(start_idx)
    }

    /// Replaces the text from `start_idx` up to `end_idx` by `character` where
    /// that can be done, and returns what the replacement returns. Where it
    /// cannot be done the document stays as it is, and nothing is returned.
    pub fn try_replace(
        &mut self,
        start_idx: &Position,
        end_idx: &Position,
        character: String,
    ) -> (range: Option<Option<ByteRange>>)
        ensures
            can_replace(old(self).text(), *start_idx, *end_idx) ==> {
                &&& range == Some(deleted(old(self).text(), *start_idx, *end_idx))
                &&& final(self).text() == spliced(
                    after_delete(old(self).text(), *start_idx, *end_idx),
                    spot(after_delete(old(self).text(), *start_idx, *end_idx), *start_idx),
                    character@,
                )
                &&& !final(self).saved()
            },
            !can_replace(old(self).text(), *start_idx, *end_idx) ==> {
                &&& range is None
                &&& final(self).text() == old(self).text()
                &&& final(self).saved() == old(self).saved()
            },
            final(self).same_file(*old(self)),
    {
        if self.accepts_replace(start_idx, end_idx) {
            Some(self.replace(start_idx, end_idx, character))
        } else {
            None
        }
    }
}

} // verus!
