//! The token model of a Befunge-style grid language: what each character of
//! a program means, and the cells that hold those meanings.
//!
//! - `operator` and `direction` hold the closed taxonomies of symbols, each
//!   with its table and the proof that the table is a bijection.
//! - `cell` holds `CellValue`, the meaning of any character, and `Cell`, a
//!   value together with its heat.
//! - `decimal` defines the decimal rendering by which a number is shown.
//! - `error` holds the answer of a lookup that found nothing.

pub mod cell;
pub mod decimal;
pub mod direction;
pub mod error;
pub mod operator;
