//! Operators, grouped by the number of values they take from the stack.
//!
//! Each arity is a closed enum with a symbol table of its own. The table is
//! stated once, as the spec function `encode`; `decode` is defined from it,
//! by asking each variant for its symbol, so the two directions cannot
//! drift apart.

use crate::error::{InvalidSymbol, Taxonomy};
use vstd::prelude::*;

verus! {

/// Operators that take nothing from the stack: they read input.
#[derive(Clone, Copy, Debug, PartialEq, Eq, Hash, Structural)]
pub enum NullaryOperator {
    /// Read an integer from the input.
    Integer,
    /// Read a character from the input.
    Ascii,
}

/// Operators that take one value from the stack.
#[derive(Clone, Copy, Debug, PartialEq, Eq, Hash, Structural)]
pub enum UnaryOperator {
    /// Logical not.
    Negate,
    /// Push the top value a second time.
    Duplicate,
    /// Discard the top value.
    Pop,
    /// Write the top value as a number.
    WriteNumber,
    /// Write the top value as a character.
    WriteASCII,
}

/// Operators that take two values from the stack.
#[derive(Clone, Copy, Debug, PartialEq, Eq, Hash, Structural)]
pub enum BinaryOperator {
    /// Whether the second value is greater than the top one.
    Greater,
    /// Sum.
    Add,
    /// Difference.
    Subtract,
    /// Product.
    Multiply,
    /// Quotient.
    Divide,
    /// Remainder.
    Modulo,
    /// Exchange the two values.
    Swap,
    /// Read the cell at a position of the grid.
    Get,
}

/// Operators that take three values from the stack.
#[derive(Clone, Copy, Debug, PartialEq, Eq, Hash, Structural)]
pub enum TernaryOperator {
    /// Write a value into the cell at a position of the grid.
    Put,
}

/// Any operator, tagged with its arity.
#[derive(Clone, Copy, Debug, PartialEq, Eq, Hash, Structural)]
pub enum Operator {
    /// Takes nothing from the stack.
    Nullary(NullaryOperator),
    /// Takes one value.
    Unary(UnaryOperator),
    /// Takes two values.
    Binary(BinaryOperator),
    /// Takes three values.
    Ternary(TernaryOperator),
}

impl NullaryOperator {
    /// The character that stands for this operator on the grid: the symbol
    /// table of this taxonomy.
    pub open spec fn encode(self) -> char {
        match self {
            NullaryOperator::Integer => '&',
            NullaryOperator::Ascii => '~',
        }
    }

    /// The operator whose symbol is `c`; where the table lists no such
    /// operator, an error that names the taxonomy and `c`.
    pub open spec fn decode(c: char) -> Result<Self, InvalidSymbol> {
        if c == NullaryOperator::Integer.encode() {
            Ok(NullaryOperator::Integer)
        } else if c == NullaryOperator::Ascii.encode() {
            Ok(NullaryOperator::Ascii)
        } else {
            Err(InvalidSymbol { taxonomy: Taxonomy::NullaryOperator, character: c })
        }
    }

    /// Decoding the symbol of any operator gives that operator back.
    pub proof fn lemma_decode_encode(self)
        ensures
            Self::decode(self.encode()) == Ok::<Self, InvalidSymbol>(self),
    {
    }

    /// Encoding what a character decodes to gives that character back.
    pub proof fn lemma_encode_decode(c: char)
        ensures
            Self::decode(c) matches Ok(v) ==> v.encode() == c,
    {
    }

    /// No two variants share a symbol.
    pub proof fn lemma_symbols_distinct(self, other: Self)
        ensures
            self != other ==> self.encode() != other.encode(),
    {
    }
}

impl From<NullaryOperator> for char {
    /// The symbol of `value`.
    fn from(value: NullaryOperator) -> (c: char)
        ensures
            c == value.encode(),
    {
        match value {
            NullaryOperator::Integer => '&',
            NullaryOperator::Ascii => '~',
        }
    }
}

impl vstd::std_specs::convert::FromSpecImpl<NullaryOperator> for char {
    open spec fn obeys_from_spec() -> bool {
        true
    }

    open spec fn from_spec(value: NullaryOperator) -> char {
        value.encode()
    }
}

impl TryFrom<char> for NullaryOperator {
    type Error = InvalidSymbol;

    /// The operator that `value` stands for, or the error that says that
    /// it stands for none.
    fn try_from(value: char) -> (r: Result<Self, InvalidSymbol>)
        ensures
            r == NullaryOperator::decode(value),
    {
        match value {
            '&' => Ok(NullaryOperator::Integer),
            '~' => Ok(NullaryOperator::Ascii),
            c => Err(InvalidSymbol { taxonomy: Taxonomy::NullaryOperator, character: c }),
        }
    }
}

impl vstd::std_specs::convert::TryFromSpecImpl<char> for NullaryOperator {
    open spec fn obeys_try_from_spec() -> bool {
        true
    }

    open spec fn try_from_spec(value: char) -> Result<Self, InvalidSymbol> {
        NullaryOperator::decode(value)
    }
}

impl UnaryOperator {
    /// The character that stands for this operator on the grid: the symbol
    /// table of this taxonomy.
    pub open spec fn encode(self) -> char {
        match self {
            UnaryOperator::Negate => '!',
            UnaryOperator::Duplicate => ':',
            UnaryOperator::Pop => '$',
            UnaryOperator::WriteNumber => '.',
            UnaryOperator::WriteASCII => ',',
        }
    }

    /// The operator whose symbol is `c`; where the table lists no such
    /// operator, an error that names the taxonomy and `c`.
    pub open spec fn decode(c: char) -> Result<Self, InvalidSymbol> {
        if c == UnaryOperator::Negate.encode() {
            Ok(UnaryOperator::Negate)
        } else if c == UnaryOperator::Duplicate.encode() {
            Ok(UnaryOperator::Duplicate)
        } else if c == UnaryOperator::Pop.encode() {
            Ok(UnaryOperator::Pop)
        } else if c == UnaryOperator::WriteNumber.encode() {
            Ok(UnaryOperator::WriteNumber)
        } else if c == UnaryOperator::WriteASCII.encode() {
            Ok(UnaryOperator::WriteASCII)
        } else {
            Err(InvalidSymbol { taxonomy: Taxonomy::UnaryOperator, character: c })
        }
    }

    /// Decoding the symbol of any operator gives that operator back.
    pub proof fn lemma_decode_encode(self)
        ensures
            Self::decode(self.encode()) == Ok::<Self, InvalidSymbol>(self),
    {
    }

    /// Encoding what a character decodes to gives that character back.
    pub proof fn lemma_encode_decode(c: char)
        ensures
            Self::decode(c) matches Ok(v) ==> v.encode() == c,
    {
    }

    /// No two variants share a symbol.
    pub proof fn lemma_symbols_distinct(self, other: Self)
        ensures
            self != other ==> self.encode() != other.encode(),
    {
    }
}

impl From<UnaryOperator> for char {
    /// The symbol of `value`.
    fn from(value: UnaryOperator) -> (c: char)
        ensures
            c == value.encode(),
    {
        match value {
            UnaryOperator::Negate => '!',
            UnaryOperator::Duplicate => ':',
            UnaryOperator::Pop => '$',
            UnaryOperator::WriteNumber => '.',
            UnaryOperator::WriteASCII => ',',
        }
    }
}

impl vstd::std_specs::convert::FromSpecImpl<UnaryOperator> for char {
    open spec fn obeys_from_spec() -> bool {
        true
    }

    open spec fn from_spec(value: UnaryOperator) -> char {
        value.encode()
    }
}

impl TryFrom<char> for UnaryOperator {
    type Error = InvalidSymbol;

    /// The operator that `value` stands for, or the error that says that
    /// it stands for none.
    fn try_from(value: char) -> (r: Result<Self, InvalidSymbol>)
        ensures
            r == UnaryOperator::decode(value),
    {
        match value {
            '!' => Ok(UnaryOperator::Negate),
            ':' => Ok(UnaryOperator::Duplicate),
            '$' => Ok(UnaryOperator::Pop),
            '.' => Ok(UnaryOperator::WriteNumber),
            ',' => Ok(UnaryOperator::WriteASCII),
            c => Err(InvalidSymbol { taxonomy: Taxonomy::UnaryOperator, character: c }),
        }
    }
}

impl vstd::std_specs::convert::TryFromSpecImpl<char> for UnaryOperator {
    open spec fn obeys_try_from_spec() -> bool {
        true
    }

    open spec fn try_from_spec(value: char) -> Result<Self, InvalidSymbol> {
        UnaryOperator::decode(value)
    }
}

impl BinaryOperator {
    /// The character that stands for this operator on the grid: the symbol
    /// table of this taxonomy.
    pub open spec fn encode(self) -> char {
        match self {
            BinaryOperator::Greater => '`',
            BinaryOperator::Add => '+',
            BinaryOperator::Subtract => '-',
            BinaryOperator::Multiply => '*',
            BinaryOperator::Divide => '/',
            BinaryOperator::Modulo => '%',
            BinaryOperator::Swap => '\\',
            BinaryOperator::Get => 'g',
        }
    }

    /// The operator whose symbol is `c`; where the table lists no such
    /// operator, an error that names the taxonomy and `c`.
    pub open spec fn decode(c: char) -> Result<Self, InvalidSymbol> {
        if c == BinaryOperator::Greater.encode() {
            Ok(BinaryOperator::Greater)
        } else if c == BinaryOperator::Add.encode() {
            Ok(BinaryOperator::Add)
        } else if c == BinaryOperator::Subtract.encode() {
            Ok(BinaryOperator::Subtract)
        } else if c == BinaryOperator::Multiply.encode() {
            Ok(BinaryOperator::Multiply)
        } else if c == BinaryOperator::Divide.encode() {
            Ok(BinaryOperator::Divide)
        } else if c == BinaryOperator::Modulo.encode() {
            Ok(BinaryOperator::Modulo)
        } else if c == BinaryOperator::Swap.encode() {
            Ok(BinaryOperator::Swap)
        } else if c == BinaryOperator::Get.encode() {
            Ok(BinaryOperator::Get)
        } else {
            Err(InvalidSymbol { taxonomy: Taxonomy::BinaryOperator, character: c })
        }
    }

    /// Decoding the symbol of any operator gives that operator back.
    pub proof fn lemma_decode_encode(self)
        ensures
            Self::decode(self.encode()) == Ok::<Self, InvalidSymbol>(self),
    {
    }

    /// Encoding what a character decodes to gives that character back.
    pub proof fn lemma_encode_decode(c: char)
        ensures
            Self::decode(c) matches Ok(v) ==> v.encode() == c,
    {
    }

    /// No two variants share a symbol.
    pub proof fn lemma_symbols_distinct(self, other: Self)
        ensures
            self != other ==> self.encode() != other.encode(),
    {
    }
}

impl From<BinaryOperator> for char {
    /// The symbol of `value`.
    fn from(value: BinaryOperator) -> (c: char)
        ensures
            c == value.encode(),
    {
        match value {
            BinaryOperator::Greater => '`',
            BinaryOperator::Add => '+',
            BinaryOperator::Subtract => '-',
            BinaryOperator::Multiply => '*',
            BinaryOperator::Divide => '/',
            BinaryOperator::Modulo => '%',
            BinaryOperator::Swap => '\\',
            BinaryOperator::Get => 'g',
        }
    }
}

impl vstd::std_specs::convert::FromSpecImpl<BinaryOperator> for char {
    open spec fn obeys_from_spec() -> bool {
        true
    }

    open spec fn from_spec(value: BinaryOperator) -> char {
        value.encode()
    }
}

impl TryFrom<char> for BinaryOperator {
    type Error = InvalidSymbol;

    /// The operator that `value` stands for, or the error that says that
    /// it stands for none.
    fn try_from(value: char) -> (r: Result<Self, InvalidSymbol>)
        ensures
            r == BinaryOperator::decode(value),
    {
        match value {
            '`' => Ok(BinaryOperator::Greater),
            '+' => Ok(BinaryOperator::Add),
            '-' => Ok(BinaryOperator::Subtract),
            '*' => Ok(BinaryOperator::Multiply),
            '/' => Ok(BinaryOperator::Divide),
            '%' => Ok(BinaryOperator::Modulo),
            '\\' => Ok(BinaryOperator::Swap),
            'g' => Ok(BinaryOperator::Get),
            c => Err(InvalidSymbol { taxonomy: Taxonomy::BinaryOperator, character: c }),
        }
    }
}

impl vstd::std_specs::convert::TryFromSpecImpl<char> for BinaryOperator {
    open spec fn obeys_try_from_spec() -> bool {
        true
    }

    open spec fn try_from_spec(value: char) -> Result<Self, InvalidSymbol> {
        BinaryOperator::decode(value)
    }
}

impl TernaryOperator {
    /// The character that stands for this operator on the grid: the symbol
    /// table of this taxonomy.
    pub open spec fn encode(self) -> char {
        match self {
            TernaryOperator::Put => 'p',
        }
    }

    /// The operator whose symbol is `c`; where the table lists no such
    /// operator, an error that names the taxonomy and `c`.
    pub open spec fn decode(c: char) -> Result<Self, InvalidSymbol> {
        if c == TernaryOperator::Put.encode() {
            Ok(TernaryOperator::Put)
        } else {
            Err(InvalidSymbol { taxonomy: Taxonomy::TernaryOperator, character: c })
        }
    }

    /// Decoding the symbol of any operator gives that operator back.
    pub proof fn lemma_decode_encode(self)
        ensures
            Self::decode(self.encode()) == Ok::<Self, InvalidSymbol>(self),
    {
    }

    /// Encoding what a character decodes to gives that character back.
    pub proof fn lemma_encode_decode(c: char)
        ensures
            Self::decode(c) matches Ok(v) ==> v.encode() == c,
    {
    }

    /// No two variants share a symbol.
    pub proof fn lemma_symbols_distinct(self, other: Self)
        ensures
            self != other ==> self.encode() != other.encode(),
    {
    }
}

impl From<TernaryOperator> for char {
    /// The symbol of `value`.
    fn from(value: TernaryOperator) -> (c: char)
        ensures
            c == value.encode(),
    {
        match value {
            TernaryOperator::Put => 'p',
        }
    }
}

impl vstd::std_specs::convert::FromSpecImpl<TernaryOperator> for char {
    open spec fn obeys_from_spec() -> bool {
        true
    }

    open spec fn from_spec(value: TernaryOperator) -> char {
        value.encode()
    }
}

impl TryFrom<char> for TernaryOperator {
    type Error = InvalidSymbol;

    /// The operator that `value` stands for, or the error that says that
    /// it stands for none.
    fn try_from(value: char) -> (r: Result<Self, InvalidSymbol>)
        ensures
            r == TernaryOperator::decode(value),
    {
        match value {
            'p' => Ok(TernaryOperator::Put),
            c => Err(InvalidSymbol { taxonomy: Taxonomy::TernaryOperator, character: c }),
        }
    }
}

impl vstd::std_specs::convert::TryFromSpecImpl<char> for TernaryOperator {
    open spec fn obeys_try_from_spec() -> bool {
        true
    }

    open spec fn try_from_spec(value: char) -> Result<Self, InvalidSymbol> {
        TernaryOperator::decode(value)
    }
}

impl Operator {
    /// The character that stands for this operator on the grid: the symbol
    /// that the table of its arity gives it.
    pub open spec fn encode(self) -> char {
        match self {
            Operator::Nullary(op) => op.encode(),
            Operator::Unary(op) => op.encode(),
            Operator::Binary(op) => op.encode(),
            Operator::Ternary(op) => op.encode(),
        }
    }

    /// The operator whose symbol is `c`. The four tables are asked in turn,
    /// from nullary to ternary, and the first that lists `c` decides; what
    /// the single tables answer where they do not list `c` is not passed
    /// on. Where none lists it, an error that names `c`.
    pub open spec fn decode(c: char) -> Result<Self, InvalidSymbol> {
        if let Ok(op) = NullaryOperator::decode(c) {
            Ok(Operator::Nullary(op))
        } else if let Ok(op) = UnaryOperator::decode(c) {
            Ok(Operator::Unary(op))
        } else if let Ok(op) = BinaryOperator::decode(c) {
            Ok(Operator::Binary(op))
        } else if let Ok(op) = TernaryOperator::decode(c) {
            Ok(Operator::Ternary(op))
        } else {
            Err(InvalidSymbol { taxonomy: Taxonomy::Operator, character: c })
        }
    }

    /// How many of the four arity tables list `c`.
    pub open spec fn tables_listing(c: char) -> nat {
        let nullary: nat = if NullaryOperator::decode(c) is Ok { 1 } else { 0 };
        let unary: nat = if UnaryOperator::decode(c) is Ok { 1 } else { 0 };
        let binary: nat = if BinaryOperator::decode(c) is Ok { 1 } else { 0 };
        let ternary: nat = if TernaryOperator::decode(c) is Ok { 1 } else { 0 };
        nullary + unary + binary + ternary
    }

    /// Decoding the symbol of any operator gives that operator back, with
    /// its arity.
    pub proof fn lemma_decode_encode(self)
        ensures
            Self::decode(self.encode()) == Ok::<Self, InvalidSymbol>(self),
    {
    }

    /// Encoding what a character decodes to gives that character back.
    pub proof fn lemma_encode_decode(c: char)
        ensures
            Self::decode(c) matches Ok(v) ==> v.encode() == c,
    {
    }

    /// No two operators share a symbol, whether of one arity or of two.
    pub proof fn lemma_symbols_distinct(self, other: Self)
        ensures
            self != other ==> self.encode() != other.encode(),
    {
    }

    /// No character stands in two arity tables: one that names an operator
    /// is listed by exactly one of the four, and any other by none. So the
    /// order in which the tables are asked never decides between two.
    pub proof fn lemma_tables_disjoint(c: char)
        ensures
            Self::tables_listing(c) <= 1,
            Self::decode(c) is Ok <==> Self::tables_listing(c) == 1,
    {
    }

    /// The symbol of every operator stands in exactly one arity table.
    pub proof fn lemma_symbol_in_one_table(self)
        ensures
            Self::tables_listing(self.encode()) == 1,
    {
    }
}

impl From<Operator> for char {
    /// The symbol of `value`.
    fn from(value: Operator) -> (c: char)
        ensures
            c == value.encode(),
    {
        match value {
            Operator::Nullary(nullary) => char::from(nullary),
            Operator::Unary(unary) => char::from(unary),
            Operator::Binary(binary) => char::from(binary),
            Operator::Ternary(ternary) => char::from(ternary),
        }
    }
}

impl vstd::std_specs::convert::FromSpecImpl<Operator> for char {
    open spec fn obeys_from_spec() -> bool {
        true
    }

    open spec fn from_spec(value: Operator) -> char {
        value.encode()
    }
}

impl TryFrom<char> for Operator {
    type Error = InvalidSymbol;

    /// The operator that `value` stands for, its arity found by asking the
    /// four tables in turn, or the error that says that it stands for none.
    fn try_from(value: char) -> (r: Result<Self, InvalidSymbol>)
        ensures
            r == Operator::decode(value),
    {
        if let Ok(nullary) = NullaryOperator::try_from(value) {
            Ok(Operator::Nullary(nullary))
        } else if let Ok(unary) = UnaryOperator::try_from(value) {
            Ok(Operator::Unary(unary))
        } else if let Ok(binary) = BinaryOperator::try_from(value) {
            Ok(Operator::Binary(binary))
        } else if let Ok(ternary) = TernaryOperator::try_from(value) {
            Ok(Operator::Ternary(ternary))
        } else {
            Err(InvalidSymbol { taxonomy: Taxonomy::Operator, character: value })
        }
    }
}

impl vstd::std_specs::convert::TryFromSpecImpl<char> for Operator {
    open spec fn obeys_try_from_spec() -> bool {
        true
    }

    open spec fn try_from_spec(value: char) -> Result<Self, InvalidSymbol> {
        Operator::decode(value)
    }
}

} // verus!
