//! Operations on one sequence.

use crate::diff::destructiveness::Destructiveness;
use crate::ir::column_type::ColumnType;
use crate::ir::sequence::SequenceOwner;
use vstd::prelude::*;

verus! {

/// One operation on a sequence.
#[derive(Debug, Clone, PartialEq, Eq)]
pub enum SequenceOp {
    /// Set the step.
    SetIncrement(i64),
    /// Set or drop the smallest value.
    SetMinValue(Option<i64>),
    /// Set or drop the largest value.
    SetMaxValue(Option<i64>),
    /// Set how many values are preallocated.
    SetCache(i64),
    /// Wrap around or not.
    SetCycle(bool),
    /// Set the type of its values.
    SetDataType(ColumnType),
    /// Set or drop the owning column.
    SetOwnedBy(Option<SequenceOwner>),
}

/// One operation and the approval it needs.
#[derive(Debug, Clone, PartialEq, Eq)]
pub struct SequenceOpEntry {
    /// The operation.
    pub op: SequenceOp,
    /// The approval it needs.
    pub destructiveness: Destructiveness,
}

} // verus!
