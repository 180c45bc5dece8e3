//! Row-level security policies.

use crate::identifier::Identifier;
use crate::ir::expr::NormalizedExpr;
use crate::ir::grant::GrantTarget;
use vstd::prelude::*;

verus! {

/// The command a policy applies to.
#[derive(Debug, Clone, Copy, PartialEq, Eq, Structural)]
pub enum PolicyCommand {
    /// `ALL`.
    All,
    /// `SELECT`.
    Select,
    /// `INSERT`.
    Insert,
    /// `UPDATE`.
    Update,
    /// `DELETE`.
    Delete,
}

/// A row-level security policy.
#[derive(Debug, Clone, PartialEq, Eq)]
pub struct Policy {
    /// Its name, unique within its table.
    pub name: Identifier,
    /// `PERMISSIVE` or `RESTRICTIVE`.
    pub permissive: bool,
    /// The command it applies to.
    pub command: PolicyCommand,
    /// The roles it applies to.
    pub roles: Vec<GrantTarget>,
    /// `USING`.
    pub using: Option<NormalizedExpr>,
    /// `WITH CHECK`.
    pub with_check: Option<NormalizedExpr>,
}

} // verus!
