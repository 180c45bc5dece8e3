//! Aggregates and casts.

use crate::identifier::{Identifier, QualifiedName};
use crate::ir::column_type::ColumnType;
use vstd::prelude::*;

verus! {

/// An aggregate.
#[derive(Debug, Clone, PartialEq, Eq)]
pub struct Aggregate {
    /// Its name.
    pub qname: QualifiedName,
    /// Its argument types.
    pub arg_types: Vec<ColumnType>,
    /// The type of its state.
    pub state_type: ColumnType,
    /// State transition function.
    pub sfunc: QualifiedName,
    /// Final function.
    pub finalfunc: Option<QualifiedName>,
    /// Initial state.
    pub initcond: Option<String>,
    /// Its owner.
    pub owner: Option<Identifier>,
    /// Its comment.
    pub comment: Option<String>,
}

/// How a cast converts.
#[derive(Debug, Clone, PartialEq, Eq)]
pub enum CastMethod {
    /// By a function.
    Function {
        /// Its name.
        name: QualifiedName,
        /// Its argument types.
        arg_types: Vec<ColumnType>,
    },
    /// Through text.
    Inout,
    /// Not at all: the types are binary coercible.
    Binary,
}

/// Where a cast applies by itself.
#[derive(Debug, Clone, Copy, PartialEq, Eq, Structural)]
pub enum CastContext {
    /// Nowhere.
    Explicit,
    /// In assignments.
    Assignment,
    /// Everywhere.
    Implicit,
}

/// A cast.
#[derive(Debug, Clone, PartialEq, Eq)]
pub struct Cast {
    /// The type it converts from.
    pub source: QualifiedName,
    /// The type it converts to.
    pub target: QualifiedName,
    /// How it converts.
    pub method: CastMethod,
    /// Where it applies by itself.
    pub context: CastContext,
    /// Its comment.
    pub comment: Option<String>,
}

} // verus!
