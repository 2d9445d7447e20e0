//! Cells of the grid: what a character of the program text means, and how
//! recently the cursor has visited it.
//!
//! `CellValue::decode` and `CellValue::encode` state the two directions
//! between characters and values. They are inverse to each other on the
//! symbols of operators and directions, and the laws below say how far
//! beyond those.

use crate::decimal::{
    decimal, first_decimal_char, is_digit, lemma_decimal_canonical, lemma_decimal_first,
};
use vstd::prelude::*;

pub use crate::direction::{Direction, IfDir};
pub use crate::operator::{
    BinaryOperator, NullaryOperator, Operator, TernaryOperator, UnaryOperator,
};

verus! {

/// What a cell holds.
#[derive(Clone, Copy, Debug, PartialEq, Eq, Hash, Structural)]
pub enum CellValue {
    /// Nothing: the cursor passes.
    Empty,
    /// An operation on the stack.
    Op(Operator),
    /// A change of the cursor's direction.
    Dir(Direction),
    /// A conditional branch.
    If(IfDir),
    /// The switch into and out of string mode.
    StringMode,
    /// A jump over the next cell.
    Bridge,
    /// The end of the program.
    End,
    /// A number to push.
    Number(u32),
    /// Any other character, kept as it is.
    Char(char),
}

/// A slot of the grid.
#[derive(Clone, Copy, Debug)]
pub struct Cell {
    /// The content of the cell.
    pub value: CellValue,
    /// How long ago a cursor last visited the cell. A new cell has heat 0;
    /// after that the value belongs to whoever runs the program.
    pub heat: i8,
}

impl CellValue {
    /// Whether `c` is one of the four characters that stand for a value
    /// without a taxonomy of its own: space, `"`, `#` and `@`.
    pub open spec fn is_fixed(c: char) -> bool {
        c == ' ' || c == '"' || c == '#' || c == '@'
    }

    /// Whether `c` means anything but itself: a fixed character, a digit,
    /// or the symbol of an operator or of a direction.
    pub open spec fn is_reserved(c: char) -> bool {
        Self::is_fixed(c) || is_digit(c) || Operator::decode(c) is Ok || Direction::decode(c) is Ok
    }

    /// The value that `c` stands for. The rules are tried in this order and
    /// the first that applies decides: the four fixed characters; a digit,
    /// which gives the number of its code point (53 for `5`); an operator;
    /// a direction; and any other character stands for itself. No
    /// character decodes to a conditional branch.
    pub open spec fn decode(c: char) -> CellValue {
        if c == ' ' {
            CellValue::Empty
        } else if c == '"' {
            CellValue::StringMode
        } else if c == '#' {
            CellValue::Bridge
        } else if c == '@' {
            CellValue::End
        } else if is_digit(c) {
            CellValue::Number(c as u32)
        } else if let Ok(op) = Operator::decode(c) {
            CellValue::Op(op)
        } else if let Ok(dir) = Direction::decode(c) {
            CellValue::Dir(dir)
        } else {
            CellValue::Char(c)
        }
    }

    /// The character that shows this value. A number is shown by the first
    /// character of its decimal rendering, so only its leading digit
    /// survives.
    pub open spec fn encode(self) -> char {
        match self {
            CellValue::Empty => ' ',
            CellValue::Op(op) => op.encode(),
            CellValue::Dir(dir) => dir.encode(),
            CellValue::If(dir) => dir.encode(),
            CellValue::StringMode => '"',
            CellValue::Bridge => '#',
            CellValue::End => '@',
            CellValue::Number(n) => decimal(n as nat)[0],
            CellValue::Char(c) => c,
        }
    }

    /// Decoding the symbol of an operator or of a direction gives the value
    /// back, and so does decoding one of the four fixed characters. The
    /// other values need not come back: the symbol of a conditional branch
    /// decodes to itself as a plain character, a number comes back as the
    /// code point of its leading digit, and a plain character as whatever
    /// it stands for.
    pub proof fn lemma_decode_encode(self)
        ensures
            self is Op || self is Dir ==> Self::decode(self.encode()) == self,
            self is Empty || self is StringMode || self is Bridge || self is End ==> Self::decode(
                self.encode(),
            ) == self,
            self is If ==> Self::decode(self.encode()) == CellValue::Char(self.encode()),
            self matches CellValue::Number(n) ==> Self::decode(self.encode()) == CellValue::Number(
                decimal(n as nat)[0] as u32,
            ),
            self matches CellValue::Char(c) ==> Self::decode(self.encode()) == Self::decode(c),
    {
        if let CellValue::Number(n) = self {
            lemma_decimal_canonical(n as nat);
        }
    }

    /// Encoding what a character decodes to gives the character back,
    /// unless it is a digit: `0` and `1` come back as `4`, the other digits
    /// as `5`, the first digit of their code point.
    pub proof fn lemma_encode_decode(c: char)
        ensures
            !is_digit(c) ==> Self::decode(c).encode() == c,
            is_digit(c) ==> Self::decode(c).encode() == (if c <= '1' {
                '4'
            } else {
                '5'
            }),
    {
        if is_digit(c) {
            let n = c as nat;
            lemma_decimal_first(n);
            lemma_decimal_first(n / 10);
        }
    }

    /// A character stands for itself exactly if nothing reserves it, and no
    /// character stands for a conditional branch.
    pub proof fn lemma_decode_fallback(c: char)
        ensures
            Self::decode(c) is Char <==> !Self::is_reserved(c),
            Self::decode(c) is Char ==> Self::decode(c) == CellValue::Char(c),
            !(Self::decode(c) is If),
    {
    }
}

impl From<char> for CellValue {
    /// The value that `value` stands for. Every character stands for one.
    fn from(value: char) -> (v: CellValue)
        ensures
            v == CellValue::decode(value),
    {
        match value {
            ' ' => CellValue::Empty,
            '"' => CellValue::StringMode,
            '#' => CellValue::Bridge,
            '@' => CellValue::End,
            '0'..='9' => CellValue::Number(value as u32),
            c => {
                if let Ok(op) = Operator::try_from(c) {
                    CellValue::Op(op)
                } else if let Ok(dir) = Direction::try_from(c) {
                    CellValue::Dir(dir)
                } else {
                    CellValue::Char(c)
                }
            },
        }
    }
}

impl vstd::std_specs::convert::FromSpecImpl<char> for CellValue {
    open spec fn obeys_from_spec() -> bool {
        true
    }

    open spec fn from_spec(value: char) -> CellValue {
        CellValue::decode(value)
    }
}

impl From<CellValue> for char {
    /// The character that shows `value`.
    fn from(value: CellValue) -> (c: char)
        ensures
            c == value.encode(),
    {
        match value {
            CellValue::Empty => ' ',
            CellValue::Op(operator) => char::from(operator),
            CellValue::Dir(dir) => char::from(dir),
            CellValue::If(dir) => char::from(dir),
            CellValue::StringMode => '"',
            CellValue::Bridge => '#',
            CellValue::End => '@',
            CellValue::Number(num) => first_decimal_char(num),
            CellValue::Char(c) => c,
        }
    }
}

impl vstd::std_specs::convert::FromSpecImpl<CellValue> for char {
    open spec fn obeys_from_spec() -> bool {
        true
    }

    open spec fn from_spec(value: CellValue) -> char {
        value.encode()
    }
}

impl Cell {
    /// The cell that holds `value` and has not been visited.
    pub open spec fn fresh(value: CellValue) -> Cell {
        Cell { value, heat: 0 }
    }
}

impl From<CellValue> for Cell {
    /// A new cell that holds `value`, with heat 0.
    fn from(value: CellValue) -> (cell: Cell)
        ensures
            cell == Cell::fresh(value),
            cell.value == value,
            cell.heat == 0,
    {
        Cell { value, heat: 0 }
    }
}

impl vstd::std_specs::convert::FromSpecImpl<CellValue> for Cell {
    open spec fn obeys_from_spec() -> bool {
        true
    }

    open spec fn from_spec(value: CellValue) -> Cell {
        Cell::fresh(value)
    }
}

impl From<char> for Cell {
    /// A new cell that holds what `value` stands for, with heat 0.
    fn from(value: char) -> (cell: Cell)
        ensures
            cell == Cell::fresh(CellValue::decode(value)),
            cell.value == CellValue::decode(value),
            cell.heat == 0,
    {
        Cell::from(CellValue::from(value))
    }
}

impl vstd::std_specs::convert::FromSpecImpl<char> for Cell {
    open spec fn obeys_from_spec() -> bool {
        true
    }

    open spec fn from_spec(value: char) -> Cell {
        Cell::fresh(CellValue::decode(value))
    }
}

} // verus!
