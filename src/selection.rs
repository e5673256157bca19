//! Text selections: an anchor and a cursor, each a biased text position.
use vstd::prelude::*;

verus! {

/// Which side of a position a biased position leans to.
#[derive(Clone, Copy, Debug, Default, Eq, Hash, PartialEq, Structural)]
pub enum Bias {
    #[default]
    Before,
    After,
}

/// A position in a text: line index and byte index within the line.
#[derive(Clone, Copy, Debug, Default, Eq, Hash, PartialEq, Structural)]
pub struct TextPos {
    pub line: usize,
    pub byte: usize,
}

/// The extent between two positions: whole lines crossed, and bytes on the last line.
#[derive(Clone, Copy, Debug, Default, Eq, Hash, PartialEq, Structural)]
pub struct TextLen {
    pub lines: usize,
    pub bytes: usize,
}

/// A position together with the side it leans to.
#[derive(Clone, Copy, Debug, Default, Eq, Hash, PartialEq, Structural)]
pub struct BiasedTextPos {
    pub pos: TextPos,
    pub bias: Bias,
}

/// A cursor: where it stands, and the column it remembers for vertical moves.
#[derive(Clone, Copy, Debug, Default, Eq, Hash, PartialEq, Structural)]
pub struct Cursor {
    pub pos: BiasedTextPos,
    pub column: Option<usize>,
}

/// A selection runs between its anchor and its cursor, in either direction.
#[derive(Clone, Copy, Debug, Default, Eq, Hash, PartialEq, Structural)]
pub struct Selection {
    pub anchor: BiasedTextPos,
    pub cursor: Cursor,
}

pub open spec fn bias_rank(b: Bias) -> int {
    match b {
        Bias::Before => 0,
        Bias::After => 1,
    }
}

/// Strict order on biased positions: by line, then byte, then bias.
pub open spec fn pos_lt(a: BiasedTextPos, b: BiasedTextPos) -> bool {
    ||| a.pos.line < b.pos.line
    ||| a.pos.line == b.pos.line && a.pos.byte < b.pos.byte
    ||| a.pos.line == b.pos.line && a.pos.byte == b.pos.byte && bias_rank(a.bias) < bias_rank(
        b.bias,
    )
}

pub open spec fn pos_le(a: BiasedTextPos, b: BiasedTextPos) -> bool {
    pos_lt(a, b) || a == b
}

pub open spec fn pos_min(a: BiasedTextPos, b: BiasedTextPos) -> BiasedTextPos {
    if pos_le(a, b) {
        a
    } else {
        b
    }
}

pub open spec fn pos_max(a: BiasedTextPos, b: BiasedTextPos) -> BiasedTextPos {
    if pos_le(a, b) {
        b
    } else {
        a
    }
}

/// The extent from `from` to `to`, for `from` not after `to`.
pub open spec fn len_between(from: TextPos, to: TextPos) -> TextLen {
    if from.line == to.line {
        TextLen { lines: 0, bytes: (to.byte - from.byte) as usize }
    } else {
        TextLen { lines: (to.line - from.line) as usize, bytes: to.byte }
    }
}

fn less_than(a: BiasedTextPos, b: BiasedTextPos) -> (r: bool)
    ensures
        r == pos_lt(a, b),
{
    if a.pos.line != b.pos.line {
        a.pos.line < b.pos.line
    } else if a.pos.byte != b.pos.byte {
        a.pos.byte < b.pos.byte
    } else {
        match (a.bias, b.bias) {
            (Bias::Before, Bias::After) => true,
            _ => false,
        }
    }
}

impl Selection {
    pub open spec fn spec_start(self) -> BiasedTextPos {
        pos_min(self.anchor, self.cursor.pos)
    }

    pub open spec fn spec_end(self) -> BiasedTextPos {
        pos_max(self.anchor, self.cursor.pos)
    }

    pub open spec fn spec_is_empty(self) -> bool {
        self.anchor == self.cursor.pos
    }

    /// Two selections merge when, taken in order of their starts, the first
    /// reaches past the start of the second; touching suffices when either is empty.
    pub open spec fn spec_should_merge(self, other: Self) -> bool {
        let (a, b) = if pos_lt(other.spec_start(), self.spec_start()) {
            (other, self)
        } else {
            (self, other)
        };
        if a.spec_is_empty() || b.spec_is_empty() {
            pos_le(b.spec_start(), a.spec_end())
        } else {
            pos_lt(b.spec_start(), a.spec_end())
        }
    }

    pub fn is_empty(self) -> (r: bool)
        ensures
            r == self.spec_is_empty(),
    {
        self.anchor == self.cursor.pos
    }

    pub fn should_merge(self, other: Self) -> (r: bool)
        ensures
            r == self.spec_should_merge(other),
    {
        let (first, second) = if less_than(other.start(), self.start()) {
            (other, self)
        } else {
            (self, other)
        };
        if first.is_empty() || second.is_empty() {
            !less_than(first.end(), second.start())
        } else {
            less_than(second.start(), first.end())
        }
    }

    pub fn length(&self) -> (r: TextLen)
        ensures
            r == len_between(self.spec_start().pos, self.spec_end().pos),
    {
        let from = self.start().pos;
        let to = self.end().pos;
        if from.line == to.line {
            TextLen { lines: 0, bytes: to.byte - from.byte }
        } else {
            TextLen { lines: to.line - from.line, bytes: to.byte }
        }
    }

    pub fn start(self) -> (r: BiasedTextPos)
        ensures
            r == self.spec_start(),
    {
        if less_than(self.cursor.pos, self.anchor) {
            self.cursor.pos
        } else {
            self.anchor
        }
    }

    pub fn end(self) -> (r: BiasedTextPos)
        ensures
            r == self.spec_end(),
    {
        if less_than(self.cursor.pos, self.anchor) {
            self.anchor
        } else {
            self.cursor.pos
        }
    }

    pub fn reset_anchor(self) -> (r: Self)
        ensures
            r == (Selection { anchor: self.cursor.pos, ..self }),
    {
        Selection { anchor: self.cursor.pos, ..self }
    }

    pub fn update_cursor(self, f: impl FnOnce(Cursor) -> Cursor) -> (r: Self)
        requires
            f.requires((self.cursor,)),
        ensures
            r.anchor == self.anchor,
            f.ensures((self.cursor,), r.cursor),
    {
        let cursor = f(self.cursor);
        Selection { cursor, ..self }
    }
}

impl From<Cursor> for Selection {
    fn from(cursor: Cursor) -> (r: Self) {
        Selection { anchor: cursor.pos, cursor }
    }
}

impl vstd::std_specs::convert::FromSpecImpl<Cursor> for Selection {
    open spec fn obeys_from_spec() -> bool {
        true
    }

    open spec fn from_spec(cursor: Cursor) -> Self {
        Selection { anchor: cursor.pos, cursor }
    }
}

impl From<BiasedTextPos> for Selection {
    fn from(pos: BiasedTextPos) -> (r: Self) {
        Selection { anchor: pos, cursor: Cursor { pos, column: None } }
    }
}

impl vstd::std_specs::convert::FromSpecImpl<BiasedTextPos> for Selection {
    open spec fn obeys_from_spec() -> bool {
        true
    }

    open spec fn from_spec(pos: BiasedTextPos) -> Self {
        Selection { anchor: pos, cursor: Cursor { pos, column: None } }
    }
}

impl From<TextPos> for Selection {
    fn from(pos: TextPos) -> (r: Self) {
        let biased = BiasedTextPos { pos, bias: Bias::Before };
        Selection { anchor: biased, cursor: Cursor { pos: biased, column: None } }
    }
}

impl vstd::std_specs::convert::FromSpecImpl<TextPos> for Selection {
    open spec fn obeys_from_spec() -> bool {
        true
    }

    open spec fn from_spec(pos: TextPos) -> Self {
        let biased = BiasedTextPos { pos, bias: Bias::Before };
        Selection { anchor: biased, cursor: Cursor { pos: biased, column: None } }
    }
}

} // verus!
