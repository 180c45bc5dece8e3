//! Tables and columns.

use crate::identifier::{Identifier, QualifiedName};
use crate::ir::column_type::ColumnType;
use crate::ir::constraint::Constraint;
use crate::ir::expr::{DefaultExpr, NormalizedExpr};
use crate::ir::grant::Grant;
use crate::ir::partition::{PartitionBy, PartitionOf};
use crate::ir::policy::Policy;
use crate::ir::reloptions::TableStorageOptions;
use vstd::prelude::*;

verus! {

/// `GENERATED ... AS IDENTITY`.
#[derive(Debug, Clone, Copy, PartialEq, Eq, Structural)]
pub enum Identity {
    /// `ALWAYS`.
    Always,
    /// `BY DEFAULT`.
    ByDefault,
}

/// How values of a column are stored.
#[derive(Debug, Clone, Copy, PartialEq, Eq, Structural)]
pub enum StorageKind {
    /// `PLAIN`.
    Plain,
    /// `EXTERNAL`.
    External,
    /// `EXTENDED`.
    Extended,
    /// `MAIN`.
    Main,
}

/// How values of a column are compressed.
#[derive(Debug, Clone, Copy, PartialEq, Eq, Structural)]
pub enum Compression {
    /// `pglz`.
    Pglz,
    /// `lz4`.
    Lz4,
}

/// A column.
#[derive(Debug, Clone, PartialEq, Eq)]
pub struct Column {
    /// Its name.
    pub name: Identifier,
    /// Its type.
    pub ty: ColumnType,
    /// Whether it accepts null.
    pub nullable: bool,
    /// Its default.
    pub default: Option<DefaultExpr>,
    /// Identity column.
    pub identity: Option<Identity>,
    /// `GENERATED ALWAYS AS (...) STORED`.
    pub generated: Option<NormalizedExpr>,
    /// Explicit collation.
    pub collation: Option<QualifiedName>,
    /// Explicit storage strategy.
    pub storage: Option<StorageKind>,
    /// Explicit compression method.
    pub compression: Option<Compression>,
    /// Its comment.
    pub comment: Option<String>,
}

/// A table.
#[derive(Debug, Clone, PartialEq, Eq)]
pub struct Table {
    /// Its name.
    pub qname: QualifiedName,
    /// Its columns.
    pub columns: Vec<Column>,
    /// Its constraints.
    pub constraints: Vec<Constraint>,
    /// `PARTITION BY`.
    pub partition_by: Option<PartitionBy>,
    /// `PARTITION OF`.
    pub partition_of: Option<PartitionOf>,
    /// Its comment.
    pub comment: Option<String>,
    /// Its owner.
    pub owner: Option<Identifier>,
    /// Its grants.
    pub grants: Vec<Grant>,
    /// Row-level security is enabled.
    pub rls_enabled: bool,
    /// Row-level security also binds the owner.
    pub rls_forced: bool,
    /// Its row-level security policies.
    pub policies: Vec<Policy>,
    /// Storage options.
    pub storage: TableStorageOptions,
}

} // verus!
