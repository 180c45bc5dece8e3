//! Sequences.

use crate::identifier::{Identifier, QualifiedName};
use crate::ir::column_type::ColumnType;
use crate::ir::grant::Grant;
use vstd::prelude::*;

verus! {

/// The column that owns a sequence.
#[derive(Debug, Clone, PartialEq, Eq)]
pub struct SequenceOwner {
    /// Its table.
    pub table: QualifiedName,
    /// Its name.
    pub column: Identifier,
}

/// A sequence.
#[derive(Debug, Clone, PartialEq, Eq)]
pub struct Sequence {
    /// Its name.
    pub qname: QualifiedName,
    /// The type of its values.
    pub data_type: ColumnType,
    /// First value.
    pub start: i64,
    /// Step.
    pub increment: i64,
    /// Smallest value.
    pub min_value: Option<i64>,
    /// Largest value.
    pub max_value: Option<i64>,
    /// How many values are preallocated.
    pub cache: i64,
    /// Whether it wraps around.
    pub cycle: bool,
    /// `OWNED BY`.
    pub owned_by: Option<SequenceOwner>,
    /// Its comment.
    pub comment: Option<String>,
    /// Its owner.
    pub owner: Option<Identifier>,
    /// Its grants.
    pub grants: Vec<Grant>,
}

} // verus!
