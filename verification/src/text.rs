//! Positions and ranges in the editor's coordinates, and the way to
//! and from the coordinates used on the wire.

use vstd::prelude::*;

verus! {

/// A place in a document: a line and a character within it, both counted from zero.
#[derive(Clone, Copy, Debug, PartialEq, Eq, Structural)]
pub struct Position {
    pub line: usize,
    pub character: usize,
}

/// A half-open stretch of a document: from `start` up to, but not including, `end`.
#[derive(Clone, Copy, Debug, PartialEq, Eq, Structural)]
pub struct Range {
    pub start: Position,
    pub end: Position,
}

/// A position as the protocol carries it.
#[derive(Clone, Copy, Debug, PartialEq, Eq, Structural)]
pub struct WirePosition {
    pub line: u32,
    pub character: u32,
}

/// A range as the protocol carries it.
#[derive(Clone, Copy, Debug, PartialEq, Eq, Structural)]
pub struct WireRange {
    pub start: WirePosition,
    pub end: WirePosition,
}

/// The largest coordinate that the wire can carry.
pub open spec fn wire_limit() -> int {
    u32::MAX as int
}

/// A coordinate cut down to what the wire can carry.
pub open spec fn clamp_to_wire(coordinate: usize) -> u32 {
    if coordinate > wire_limit() {
        u32::MAX
    } else {
        coordinate as u32
    }
}

fn clamp(coordinate: usize) -> (clamped: u32)
    ensures
        clamped == clamp_to_wire(coordinate),
{
    if coordinate > u32::MAX as usize {
        u32::MAX
    } else {
        coordinate as u32
    }
}

impl Position {
    /// Document order, strict: an earlier line, or the same line and an earlier character.
    pub open spec fn lt(self, other: Position) -> bool {
        self.line < other.line || (self.line == other.line && self.character < other.character)
    }

    /// Document order: `self` is `other` or comes before it.
    pub open spec fn le(self, other: Position) -> bool {
        self.line < other.line || (self.line == other.line && self.character <= other.character)
    }

    /// Whether both coordinates can be carried on the wire unchanged.
    pub open spec fn fits_wire(self) -> bool {
        self.line <= wire_limit() && self.character <= wire_limit()
    }

    /// The editor position that a wire position stands for.
    pub open spec fn of_wire(wire: WirePosition) -> Position {
        Position { line: wire.line as usize, character: wire.character as usize }
    }

    /// The wire position sent for an editor position: each coordinate is kept
    /// where the wire can carry it, and is the wire's largest otherwise.
    pub open spec fn wire(self) -> WirePosition {
        WirePosition {
            line: clamp_to_wire(self.line),
            character: clamp_to_wire(self.character),
        }
    }

    pub fn new(line: usize, character: usize) -> (position: Position)
        ensures
            position.line == line,
            position.character == character,
    {
        Position { line, character }
    }

    pub fn line(&self) -> (line: usize)
        ensures
            line == self.line,
    {
        self.line
    }

    pub fn character(&self) -> (character: usize)
        ensures
            character == self.character,
    {
        self.character
    }

    /// Whether `self` comes strictly before `other` in the document.
    pub fn before(&self, other: &Position) -> (earlier: bool)
        ensures
            earlier == self.lt(*other),
    {
        self.line < other.line || (self.line == other.line && self.character < other.character)
    }

    /// Whether `self` is `other` or comes before it in the document.
    pub fn at_or_before(&self, other: &Position) -> (earlier: bool)
        ensures
            earlier == self.le(*other),
    {
        self.line < other.line || (self.line == other.line && self.character <= other.character)
    }

    pub fn from_wire(wire: WirePosition) -> (position: Position)
        ensures
            position == Position::of_wire(wire),
    {
        Position { line: wire.line as usize, character: wire.character as usize }
    }

    pub fn to_wire(&self) -> (wire: WirePosition)
        ensures
            wire == self.wire(),
    {
        WirePosition { line: clamp(self.line), character: clamp(self.character) }
    }
}

impl WirePosition {
    /// Document order on wire positions, strict.
    pub open spec fn lt(self, other: WirePosition) -> bool {
        self.line < other.line || (self.line == other.line && self.character < other.character)
    }

    /// Document order on wire positions.
    pub open spec fn le(self, other: WirePosition) -> bool {
        self.line < other.line || (self.line == other.line && self.character <= other.character)
    }
}

impl WireRange {
    /// Whether `position` lies in the range: at or after its start, before its end.
    pub open spec fn contains(self, position: WirePosition) -> bool {
        self.start.le(position) && position.lt(self.end)
    }
}

impl Range {
    /// Whether `position` lies in the range: at or after its start, before its end.
    pub open spec fn contains(self, position: Position) -> bool {
        self.start.le(position) && position.lt(self.end)
    }

    /// The editor range that a wire range stands for.
    pub open spec fn of_wire(wire: WireRange) -> Range {
        Range { start: Position::of_wire(wire.start), end: Position::of_wire(wire.end) }
    }

    /// The wire range sent for an editor range.
    pub open spec fn wire(self) -> WireRange {
        WireRange { start: self.start.wire(), end: self.end.wire() }
    }

    pub fn new(start: Position, end: Position) -> (range: Range)
        ensures
            range.start == start,
            range.end == end,
    {
        Range { start, end }
    }

    /// Half-open containment: `start <= position < end` in document order.
    pub fn pos_in_range(&self, position: Position) -> (inside: bool)
        ensures
            inside == self.contains(position),
    {
        self.start.at_or_before(&position) && position.before(&self.end)
    }

    pub fn from_wire(wire: WireRange) -> (range: Range)
        ensures
            range == Range::of_wire(wire),
    {
        Range { start: Position::from_wire(wire.start), end: Position::from_wire(wire.end) }
    }

    pub fn to_wire(&self) -> (wire: WireRange)
        ensures
            wire == self.wire(),
    {
        WireRange { start: self.start.to_wire(), end: self.end.to_wire() }
    }
}

/// A wire position survives the trip into editor coordinates and back.
pub proof fn lemma_wire_position_round_trip(wire: WirePosition)
    ensures
        Position::of_wire(wire).fits_wire(),
        Position::of_wire(wire).wire() == wire,
{
}

/// An editor position that the wire can carry survives the trip onto the wire and back.
pub proof fn lemma_position_round_trip(position: Position)
    requires
        position.fits_wire(),
    ensures
        Position::of_wire(position.wire()) == position,
{
}

/// A wire range survives the trip into editor coordinates and back.
pub proof fn lemma_wire_range_round_trip(wire: WireRange)
    ensures
        Range::of_wire(wire).wire() == wire,
{
    lemma_wire_position_round_trip(wire.start);
    lemma_wire_position_round_trip(wire.end);
}

/// Coming from the wire keeps document order, so a position lies in a
/// range in editor coordinates exactly when it lay in the range on the wire.
pub proof fn lemma_of_wire_keeps_containment(range: WireRange, position: WirePosition)
    ensures
        Position::of_wire(position).lt(Position::of_wire(range.end)) == position.lt(range.end),
        Position::of_wire(range.start).le(Position::of_wire(position)) == range.start.le(position),
        Range::of_wire(range).contains(Position::of_wire(position)) == range.contains(position),
{
}

/// Document order is a strict total order, and a range whose end is not after
/// its start contains nothing.
pub proof fn lemma_document_order(a: Position, b: Position, c: Position)
    ensures
        !a.lt(a),
        a.lt(b) && b.lt(c) ==> a.lt(c),
        a.lt(b) || a == b || b.lt(a),
        a.le(b) == (a.lt(b) || a == b),
        b.le(a) ==> !(Range { start: a, end: b }).contains(c),
{
}

} // verus!
