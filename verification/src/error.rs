//! The error taxonomy of the connectivity layer.

use vstd::prelude::*;

verus! {

/// A typed failure returned by every façade operation.
///
/// Every operation-level error is returned to the immediate caller; the core
/// performs no retry and no silent recovery.
#[derive(Debug, PartialEq, Eq)]
pub enum DbError {
    /// `open` was asked for a driver name that was never registered.
    UnknownDriver,
    /// `try_register` was asked to bind a name that is already bound.
    DuplicateDriver,
    /// A handle of one kind was used where another kind was expected:
    /// a programming-contract violation, not a normal runtime condition.
    HandleKindMismatch,
    /// A column index at or past the column count was passed to `get`.
    ColumnOutOfRange,
    /// A row value was requested while the cursor is not positioned on a row
    /// (before the first `next`, after exhaustion, or after close).
    NoCurrentRow,
    /// `get_by_col_name` was given a name that matches no column descriptor.
    UnknownColumn,
    /// The backend reported a failure; the text is driver-specific.
    Backend(String),
}

impl DbError {
    /// A short human-readable description of the error.
    pub fn describe(&self) -> (r: &'static str) {
        match self {
            DbError::UnknownDriver => "unknown driver",
            DbError::DuplicateDriver => "driver name registered twice",
            DbError::HandleKindMismatch => "handle kind mismatch",
            DbError::ColumnOutOfRange => "column index out of range",
            DbError::NoCurrentRow => "no current row",
            DbError::UnknownColumn => "unknown column name or alias",
            DbError::Backend(_) => "backend error",
        }
    }
}

} // verus!
