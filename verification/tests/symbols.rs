use befunge_cell::direction::{Direction, IfDir};
use befunge_cell::error::{InvalidSymbol, Taxonomy};
use befunge_cell::operator::{
    BinaryOperator, NullaryOperator, Operator, TernaryOperator, UnaryOperator,
};

fn nullary_table() -> Vec<(NullaryOperator, char)> {
    vec![(NullaryOperator::Integer, '&'), (NullaryOperator::Ascii, '~')]
}

fn unary_table() -> Vec<(UnaryOperator, char)> {
    vec![
        (UnaryOperator::Negate, '!'),
        (UnaryOperator::Duplicate, ':'),
        (UnaryOperator::Pop, '$'),
        (UnaryOperator::WriteNumber, '.'),
        (UnaryOperator::WriteASCII, ','),
    ]
}

fn binary_table() -> Vec<(BinaryOperator, char)> {
    vec![
        (BinaryOperator::Greater, '`'),
        (BinaryOperator::Add, '+'),
        (BinaryOperator::Subtract, '-'),
        (BinaryOperator::Multiply, '*'),
        (BinaryOperator::Divide, '/'),
        (BinaryOperator::Modulo, '%'),
        (BinaryOperator::Swap, '\\'),
        (BinaryOperator::Get, 'g'),
    ]
}

fn ternary_table() -> Vec<(TernaryOperator, char)> {
    vec![(TernaryOperator::Put, 'p')]
}

fn if_dir_table() -> Vec<(IfDir, char)> {
    vec![(IfDir::Horizontal, '_'), (IfDir::Vertical, '|')]
}

fn direction_table() -> Vec<(Direction, char)> {
    vec![
        (Direction::Up, '^'),
        (Direction::Down, 'v'),
        (Direction::Left, '<'),
        (Direction::Right, '>'),
        (Direction::Random, '?'),
    ]
}

fn operator_table() -> Vec<(Operator, char)> {
    let mut table = Vec::new();
    for (op, c) in nullary_table() {
        table.push((Operator::Nullary(op), c));
    }
    for (op, c) in unary_table() {
        table.push((Operator::Unary(op), c));
    }
    for (op, c) in binary_table() {
        table.push((Operator::Binary(op), c));
    }
    for (op, c) in ternary_table() {
        table.push((Operator::Ternary(op), c));
    }
    table
}

fn all_chars() -> Vec<char> {
    (0u32..=0x10FFFF).filter_map(char::from_u32).collect()
}

#[test]
fn nullary_symbols_round_trip() {
    for (op, c) in nullary_table() {
        assert_eq!(char::from(op), c);
        assert_eq!(NullaryOperator::try_from(c), Ok(op));
        assert_eq!(char::from(NullaryOperator::try_from(c).unwrap()), c);
        assert_eq!(NullaryOperator::try_from(char::from(op)), Ok(op));
    }
}

#[test]
fn unary_symbols_round_trip() {
    for (op, c) in unary_table() {
        assert_eq!(char::from(op), c);
        assert_eq!(UnaryOperator::try_from(c), Ok(op));
        assert_eq!(char::from(UnaryOperator::try_from(c).unwrap()), c);
        assert_eq!(UnaryOperator::try_from(char::from(op)), Ok(op));
    }
}

#[test]
fn binary_symbols_round_trip() {
    for (op, c) in binary_table() {
        assert_eq!(char::from(op), c);
        assert_eq!(BinaryOperator::try_from(c), Ok(op));
        assert_eq!(char::from(BinaryOperator::try_from(c).unwrap()), c);
        assert_eq!(BinaryOperator::try_from(char::from(op)), Ok(op));
    }
}

#[test]
fn ternary_symbols_round_trip() {
    for (op, c) in ternary_table() {
        assert_eq!(char::from(op), c);
        assert_eq!(TernaryOperator::try_from(c), Ok(op));
        assert_eq!(char::from(TernaryOperator::try_from(c).unwrap()), c);
        assert_eq!(TernaryOperator::try_from(char::from(op)), Ok(op));
    }
}

#[test]
fn if_dir_symbols_round_trip() {
    for (dir, c) in if_dir_table() {
        assert_eq!(char::from(dir), c);
        assert_eq!(IfDir::try_from(c), Ok(dir));
        assert_eq!(char::from(IfDir::try_from(c).unwrap()), c);
        assert_eq!(IfDir::try_from(char::from(dir)), Ok(dir));
    }
}

#[test]
fn direction_symbols_round_trip() {
    for (dir, c) in direction_table() {
        assert_eq!(char::from(dir), c);
        assert_eq!(Direction::try_from(c), Ok(dir));
        assert_eq!(char::from(Direction::try_from(c).unwrap()), c);
        assert_eq!(Direction::try_from(char::from(dir)), Ok(dir));
    }
}

#[test]
fn operator_symbols_round_trip_with_arity() {
    let table = operator_table();
    assert_eq!(table.len(), 16);
    for (op, c) in table {
        assert_eq!(char::from(op), c);
        assert_eq!(Operator::try_from(c), Ok(op));
        assert_eq!(char::from(Operator::try_from(c).unwrap()), c);
        assert_eq!(Operator::try_from(char::from(op)), Ok(op));
    }
}

#[test]
fn operator_conversion_through_into() {
    let c: char = Operator::Binary(BinaryOperator::Swap).into();
    assert_eq!(c, '\\');
    let op: Result<Operator, InvalidSymbol> = 'p'.try_into();
    assert_eq!(op, Ok(Operator::Ternary(TernaryOperator::Put)));
}

#[test]
fn each_operator_symbol_stands_in_one_arity_table() {
    for (_, c) in operator_table() {
        let listed = [
            NullaryOperator::try_from(c).is_ok(),
            UnaryOperator::try_from(c).is_ok(),
            BinaryOperator::try_from(c).is_ok(),
            TernaryOperator::try_from(c).is_ok(),
        ];
        assert_eq!(listed.iter().filter(|l| **l).count(), 1, "symbol {c:?}");
    }
}

#[test]
fn no_character_stands_in_two_arity_tables() {
    for c in all_chars() {
        let listed = [
            NullaryOperator::try_from(c).is_ok(),
            UnaryOperator::try_from(c).is_ok(),
            BinaryOperator::try_from(c).is_ok(),
            TernaryOperator::try_from(c).is_ok(),
        ];
        let count = listed.iter().filter(|l| **l).count();
        assert!(count <= 1, "symbol {c:?}");
        assert_eq!(Operator::try_from(c).is_ok(), count == 1, "symbol {c:?}");
    }
}

#[test]
fn symbols_are_distinct_within_and_across_operator_tables() {
    let table = operator_table();
    for (i, (a, ca)) in table.iter().enumerate() {
        for (b, cb) in table.iter().skip(i + 1) {
            assert_ne!(a, b);
            assert_ne!(ca, cb);
        }
    }
}

#[test]
fn nullary_rejects_what_it_does_not_list() {
    assert_eq!(
        NullaryOperator::try_from('+'),
        Err(InvalidSymbol { taxonomy: Taxonomy::NullaryOperator, character: '+' })
    );
}

#[test]
fn unary_rejects_what_it_does_not_list() {
    assert_eq!(
        UnaryOperator::try_from('&'),
        Err(InvalidSymbol { taxonomy: Taxonomy::UnaryOperator, character: '&' })
    );
}

#[test]
fn binary_rejects_what_it_does_not_list() {
    assert_eq!(
        BinaryOperator::try_from('p'),
        Err(InvalidSymbol { taxonomy: Taxonomy::BinaryOperator, character: 'p' })
    );
}

#[test]
fn ternary_rejects_what_it_does_not_list() {
    assert_eq!(
        TernaryOperator::try_from('g'),
        Err(InvalidSymbol { taxonomy: Taxonomy::TernaryOperator, character: 'g' })
    );
}

#[test]
fn if_dir_rejects_what_it_does_not_list() {
    assert_eq!(
        IfDir::try_from('^'),
        Err(InvalidSymbol { taxonomy: Taxonomy::IfDir, character: '^' })
    );
}

#[test]
fn direction_rejects_what_it_does_not_list() {
    assert_eq!(
        Direction::try_from('_'),
        Err(InvalidSymbol { taxonomy: Taxonomy::Direction, character: '_' })
    );
}

#[test]
fn operator_rejects_with_its_own_taxonomy() {
    assert_eq!(
        Operator::try_from('x'),
        Err(InvalidSymbol { taxonomy: Taxonomy::Operator, character: 'x' })
    );
    assert_eq!(
        Operator::try_from('>'),
        Err(InvalidSymbol { taxonomy: Taxonomy::Operator, character: '>' })
    );
    assert_eq!(
        Operator::try_from('\u{10FFFF}'),
        Err(InvalidSymbol { taxonomy: Taxonomy::Operator, character: '\u{10FFFF}' })
    );
}

#[test]
fn lookups_are_case_sensitive() {
    assert!(BinaryOperator::try_from('G').is_err());
    assert!(TernaryOperator::try_from('P').is_err());
    assert!(Direction::try_from('V').is_err());
}

#[test]
fn every_character_is_listed_or_rejected_by_name() {
    let directions: Vec<char> = direction_table().into_iter().map(|(_, c)| c).collect();
    let branches: Vec<char> = if_dir_table().into_iter().map(|(_, c)| c).collect();
    for c in all_chars() {
        match Direction::try_from(c) {
            Ok(dir) => assert_eq!(char::from(dir), c),
            Err(e) => {
                assert!(!directions.contains(&c));
                assert_eq!(e, InvalidSymbol { taxonomy: Taxonomy::Direction, character: c });
            }
        }
        match IfDir::try_from(c) {
            Ok(dir) => assert_eq!(char::from(dir), c),
            Err(e) => {
                assert!(!branches.contains(&c));
                assert_eq!(e, InvalidSymbol { taxonomy: Taxonomy::IfDir, character: c });
            }
        }
    }
}

#[test]
fn default_direction_is_right() {
    assert_eq!(Direction::default(), Direction::Right);
}
