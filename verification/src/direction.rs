//! Where the cursor goes: the directions it can take, and the two
//! conditional branches.
//!
//! As with the operators, each taxonomy states its symbol table once, as
//! `encode`, and `decode` is defined from it.

use crate::error::{InvalidSymbol, Taxonomy};
use vstd::prelude::*;

verus! {

/// A direction of the cursor.
#[derive(Clone, Copy, Debug, PartialEq, Eq, Hash, Structural)]
pub enum Direction {
    /// Towards the first row.
    Up,
    /// Towards the last row.
    Down,
    /// Towards the first column.
    Left,
    /// Towards the last column: the direction in which a program starts.
    Right,
    /// One of the four, picked anew at each visit.
    Random,
}

/// A branch that picks one of two opposite directions along one dimension.
#[derive(Clone, Copy, Debug, PartialEq, Eq, Hash, Structural)]
pub enum IfDir {
    /// Left or right.
    Horizontal,
    /// Up or down.
    Vertical,
}

impl Default for Direction {
    /// The direction in which a program starts.
    fn default() -> (d: Direction)
        ensures
            d == Direction::Right,
    {
        Direction::Right
    }
}

impl Direction {
    /// The character that stands for this direction on the grid: the symbol
    /// table of this taxonomy.
    pub open spec fn encode(self) -> char {
        match self {
            Direction::Up => '^',
            Direction::Down => 'v',
            Direction::Left => '<',
            Direction::Right => '>',
            Direction::Random => '?',
        }
    }

    /// The direction whose symbol is `c`; where the table lists no such
    /// direction, an error that names the taxonomy and `c`.
    pub open spec fn decode(c: char) -> Result<Self, InvalidSymbol> {
        if c == Direction::Up.encode() {
            Ok(Direction::Up)
        } else if c == Direction::Down.encode() {
            Ok(Direction::Down)
        } else if c == Direction::Left.encode() {
            Ok(Direction::Left)
        } else if c == Direction::Right.encode() {
            Ok(Direction::Right)
        } else if c == Direction::Random.encode() {
            Ok(Direction::Random)
        } else {
            Err(InvalidSymbol { taxonomy: Taxonomy::Direction, character: c })
        }
    }

    /// Decoding the symbol of any direction gives that direction back.
    pub proof fn lemma_decode_encode(self)
        ensures
            Self::decode(self.encode()) == Ok::<Self, InvalidSymbol>(self),
    {
    }

    /// Encoding what a character decodes to gives that character back.
    pub proof fn lemma_encode_decode(c: char)
        ensures
            Self::decode(c) matches Ok(v) ==> v.encode() == c,
    {
    }

    /// No two variants share a symbol.
    pub proof fn lemma_symbols_distinct(self, other: Self)
        ensures
            self != other ==> self.encode() != other.encode(),
    {
    }
}

impl From<Direction> for char {
    /// The symbol of `value`.
    fn from(value: Direction) -> (c: char)
        ensures
            c == value.encode(),
    {
        match value {
            Direction::Up => '^',
            Direction::Down => 'v',
            Direction::Left => '<',
            Direction::Right => '>',
            Direction::Random => '?',
        }
    }
}

impl vstd::std_specs::convert::FromSpecImpl<Direction> for char {
    open spec fn obeys_from_spec() -> bool {
        true
    }

    open spec fn from_spec(value: Direction) -> char {
        value.encode()
    }
}

impl TryFrom<char> for Direction {
    type Error = InvalidSymbol;

    /// The direction that `value` stands for, or the error that says that
    /// it stands for none.
    fn try_from(value: char) -> (r: Result<Self, InvalidSymbol>)
        ensures
            r == Direction::decode(value),
    {
        match value {
            '^' => Ok(Direction::Up),
            'v' => Ok(Direction::Down),
            '<' => Ok(Direction::Left),
            '>' => Ok(Direction::Right),
            '?' => Ok(Direction::Random),
            c => Err(InvalidSymbol { taxonomy: Taxonomy::Direction, character: c }),
        }
    }
}

impl vstd::std_specs::convert::TryFromSpecImpl<char> for Direction {
    open spec fn obeys_try_from_spec() -> bool {
        true
    }

    open spec fn try_from_spec(value: char) -> Result<Self, InvalidSymbol> {
        Direction::decode(value)
    }
}

impl IfDir {
    /// The character that stands for this branch on the grid: the symbol
    /// table of this taxonomy.
    pub open spec fn encode(self) -> char {
        match self {
            IfDir::Horizontal => '_',
            IfDir::Vertical => '|',
        }
    }

    /// The branch whose symbol is `c`; where the table lists no such
    /// branch, an error that names the taxonomy and `c`.
    pub open spec fn decode(c: char) -> Result<Self, InvalidSymbol> {
        if c == IfDir::Horizontal.encode() {
            Ok(IfDir::Horizontal)
        } else if c == IfDir::Vertical.encode() {
            Ok(IfDir::Vertical)
        } else {
            Err(InvalidSymbol { taxonomy: Taxonomy::IfDir, character: c })
        }
    }

    /// Decoding the symbol of any branch gives that branch back.
    pub proof fn lemma_decode_encode(self)
        ensures
            Self::decode(self.encode()) == Ok::<Self, InvalidSymbol>(self),
    {
    }

    /// Encoding what a character decodes to gives that character back.
    pub proof fn lemma_encode_decode(c: char)
        ensures
            Self::decode(c) matches Ok(v) ==> v.encode() == c,
    {
    }

    /// No two variants share a symbol.
    pub proof fn lemma_symbols_distinct(self, other: Self)
        ensures
            self != other ==> self.encode() != other.encode(),
    {
    }
}

impl From<IfDir> for char {
    /// The symbol of `value`.
    fn from(value: IfDir) -> (c: char)
        ensures
            c == value.encode(),
    {
        match value {
            IfDir::Horizontal => '_',
            IfDir::Vertical => '|',
        }
    }
}

impl vstd::std_specs::convert::FromSpecImpl<IfDir> for char {
    open spec fn obeys_from_spec() -> bool {
        true
    }

    open spec fn from_spec(value: IfDir) -> char {
        value.encode()
    }
}

impl TryFrom<char> for IfDir {
    type Error = InvalidSymbol;

    /// The branch that `value` stands for, or the error that says that
    /// it stands for none.
    fn try_from(value: char) -> (r: Result<Self, InvalidSymbol>)
        ensures
            r == IfDir::decode(value),
    {
        match value {
            '_' => Ok(IfDir::Horizontal),
            '|' => Ok(IfDir::Vertical),
            c => Err(InvalidSymbol { taxonomy: Taxonomy::IfDir, character: c }),
        }
    }
}

impl vstd::std_specs::convert::TryFromSpecImpl<char> for IfDir {
    open spec fn obeys_try_from_spec() -> bool {
        true
    }

    open spec fn try_from_spec(value: char) -> Result<Self, InvalidSymbol> {
        IfDir::decode(value)
    }
}

} // verus!
