//! Errors reported by the runtime resources.

use vstd::prelude::*;

verus! {

/// Failures of operations on a global.
#[derive(Debug, Clone, Copy, PartialEq, Eq, Structural)]
pub enum GlobalError {
    /// The initial value does not have the global's value type.
    Create,
    /// The global's type could not be looked up.
    Type,
    /// A write to a global whose mutability is `Const`.
    ModifyConst,
    /// A write of a value whose type differs from the global's value type.
    UnmatchedValType,
}

/// Failures of operations on a table.
#[derive(Debug, Clone, Copy, PartialEq, Eq, Structural)]
pub enum TableError {
    /// The table's type could not be looked up.
    Type,
    /// An index at or beyond the table's current capacity.
    OutOfBounds,
    /// Growth beyond the maximum of the table's limit.
    LimitExceeded,
    /// A value whose reference kind differs from the table's element type.
    RefTypeMismatch,
}

/// All errors of this library.
#[derive(Debug, Clone, Copy, PartialEq, Eq, Structural)]
pub enum WasmEdgeError {
    /// A table type whose limit has a minimum above its maximum.
    TableTypeCreate,
    Global(GlobalError),
    Table(TableError),
}

pub type WasmEdgeResult<T> = Result<T, WasmEdgeError>;

} // verus!
