//! Table partitioning.

use crate::identifier::{Identifier, QualifiedName};
use crate::ir::expr::NormalizedExpr;
use vstd::prelude::*;

verus! {

/// How rows are spread over partitions.
#[derive(Debug, Clone, Copy, PartialEq, Eq, Structural)]
pub enum PartitionStrategy {
    /// `RANGE`.
    Range,
    /// `LIST`.
    List,
    /// `HASH`.
    Hash,
}

/// What a partition key column is.
#[derive(Debug, Clone, PartialEq, Eq)]
pub enum PartitionColumnKind {
    /// A column.
    Column(Identifier),
    /// An expression.
    Expression(NormalizedExpr),
}

/// One column of a partition key.
#[derive(Debug, Clone, PartialEq, Eq)]
pub struct PartitionColumn {
    /// Column or expression.
    pub kind: PartitionColumnKind,
    /// Collation.
    pub collation: Option<QualifiedName>,
    /// Operator class.
    pub opclass: Option<QualifiedName>,
}

/// `PARTITION BY`.
#[derive(Debug, Clone, PartialEq, Eq)]
pub struct PartitionBy {
    /// How rows are spread.
    pub strategy: PartitionStrategy,
    /// The key.
    pub columns: Vec<PartitionColumn>,
}

/// Which rows a partition holds.
#[derive(Debug, Clone, PartialEq, Eq)]
pub enum PartitionBounds {
    /// `FOR VALUES IN (...)`.
    List {
        /// The values.
        values: Vec<NormalizedExpr>,
    },
    /// `FOR VALUES FROM (...) TO (...)`.
    Range {
        /// Inclusive lower bound.
        from: Vec<NormalizedExpr>,
        /// Exclusive upper bound.
        to: Vec<NormalizedExpr>,
    },
    /// `FOR VALUES WITH (MODULUS m, REMAINDER r)`.
    Hash {
        /// The modulus.
        modulus: u32,
        /// The remainder.
        remainder: u32,
    },
    /// `DEFAULT`.
    Default,
}

/// `PARTITION OF`.
#[derive(Debug, Clone, PartialEq, Eq)]
pub struct PartitionOf {
    /// The partitioned table.
    pub parent: QualifiedName,
    /// Which rows it holds.
    pub bounds: PartitionBounds,
}

} // verus!
