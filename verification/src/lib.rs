//! A calculator that keeps a persistent history of everything it computed.
//!
//! The library has two variants of the same contract, one over unsigned
//! operands and one over signed operands.  Each variant couples an operation
//! executor (the four arithmetic operations) with an append-only history
//! store: every committed operation is recorded as an immutable [`unsigned::Operation`]
//! (or [`signed::Operation`]) and the full history can be read back in call
//! order, by index, or by its most recent entry.

use vstd::prelude::*;

pub mod signed;
pub mod unsigned;

verus! {

/// The four kinds of operation the calculator can record.
#[derive(Clone, Copy, Debug, PartialEq, Eq, Structural)]
pub enum OperationKind {
    Addition,
    Subtraction,
    Multiplication,
    Division,
}

} // verus!
