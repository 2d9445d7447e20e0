//! The one way a symbol lookup can fail.

use vstd::prelude::*;

verus! {

/// The closed symbol classes in which a character can be looked up.
#[derive(Clone, Copy, Debug, PartialEq, Eq, Hash, Structural)]
pub enum Taxonomy {
    /// Any operator, whatever its arity.
    Operator,
    /// Operators that take nothing from the stack.
    NullaryOperator,
    /// Operators that take one value.
    UnaryOperator,
    /// Operators that take two values.
    BinaryOperator,
    /// Operators that take three values.
    TernaryOperator,
    /// The two conditional branches.
    IfDir,
    /// The cursor directions.
    Direction,
}

/// A character that the consulted taxonomy does not list.
///
/// This is an expected outcome, not a fault: callers use it to move on to
/// the next taxonomy.
#[derive(Clone, Copy, Debug, PartialEq, Eq, Hash, Structural)]
pub struct InvalidSymbol {
    /// The taxonomy that was consulted.
    pub taxonomy: Taxonomy,
    /// The character that it does not list.
    pub character: char,
}

} // verus!
