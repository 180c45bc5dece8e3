//! Indexes.

use crate::identifier::{Identifier, QualifiedName};
use crate::ir::expr::NormalizedExpr;
use crate::ir::reloptions::IndexStorageOptions;
use vstd::prelude::*;

verus! {

/// What an index is on.
#[derive(Debug, Clone, PartialEq, Eq)]
pub enum IndexParent {
    /// A table.
    Table(QualifiedName),
    /// A materialized view.
    Mv(QualifiedName),
}

impl IndexParent {
    /// The name of the indexed relation.
    pub open spec fn name(self) -> QualifiedName {
        match self {
            IndexParent::Table(q) => q,
            IndexParent::Mv(q) => q,
        }
    }

    /// The name of the indexed relation.
    pub fn qname(&self) -> (q: &QualifiedName)
        ensures
            *q == self.name(),
    {
        match self {
            IndexParent::Table(q) => q,
            IndexParent::Mv(q) => q,
        }
    }
}

/// Index access method.
#[derive(Debug, Clone, Copy, PartialEq, Eq, Structural)]
pub enum IndexMethod {
    /// `btree`.
    BTree,
    /// `hash`.
    Hash,
    /// `gist`.
    Gist,
    /// `spgist`.
    SpGist,
    /// `gin`.
    Gin,
    /// `brin`.
    Brin,
}

/// What an index column is.
#[derive(Debug, Clone, PartialEq, Eq)]
pub enum IndexColumnExpr {
    /// A column.
    Column(Identifier),
    /// An expression.
    Expression(NormalizedExpr),
}

/// Sort direction.
#[derive(Debug, Clone, Copy, PartialEq, Eq, Structural)]
pub enum SortOrder {
    /// Ascending.
    Asc,
    /// Descending.
    Desc,
}

/// Where nulls sort.
#[derive(Debug, Clone, Copy, PartialEq, Eq, Structural)]
pub enum NullsOrder {
    /// Nulls first.
    NullsFirst,
    /// Nulls last.
    NullsLast,
}

/// One key column of an index.
#[derive(Debug, Clone, PartialEq, Eq)]
pub struct IndexColumn {
    /// Column or expression.
    pub expr: IndexColumnExpr,
    /// Collation.
    pub collation: Option<QualifiedName>,
    /// Operator class.
    pub opclass: Option<QualifiedName>,
    /// Sort direction.
    pub sort_order: SortOrder,
    /// Where nulls sort.
    pub nulls_order: NullsOrder,
}

/// An index.
#[derive(Debug, Clone, PartialEq, Eq)]
pub struct Index {
    /// Its name.
    pub qname: QualifiedName,
    /// What it is on.
    pub on: IndexParent,
    /// Access method.
    pub method: IndexMethod,
    /// Key columns.
    pub columns: Vec<IndexColumn>,
    /// Included columns.
    pub included: Vec<Identifier>,
    /// `UNIQUE`.
    pub unique: bool,
    /// `NULLS NOT DISTINCT`.
    pub nulls_not_distinct: bool,
    /// Partial-index predicate.
    pub predicate: Option<NormalizedExpr>,
    /// Tablespace.
    pub tablespace: Option<Identifier>,
    /// Its comment.
    pub comment: Option<String>,
    /// Storage options.
    pub storage: IndexStorageOptions,
}

} // verus!
