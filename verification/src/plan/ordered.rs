//! The planner's ordered output.
//!
//! Three buckets, each in dependency-correct order, plus a list of foreign
//! keys that had to be deferred to a post-pass to break cycles.

use crate::diff::change::ChangeEntry;
use crate::identifier::{QnameModel, QualifiedName};
use crate::ir::constraint::{Constraint, ConstraintModel};
use vstd::prelude::*;

verus! {

/// A change set partitioned and sorted by the planner.
#[derive(Debug, Clone, PartialEq)]
pub struct OrderedChangeSet {
    /// Creates and additive operations, in dependency order.
    pub creates_and_adds: Vec<ChangeEntry>,
    /// Modify-in-place operations, in dependency order.
    pub modifies: Vec<ChangeEntry>,
    /// Drops, in reverse dependency order.
    pub drops: Vec<ChangeEntry>,
    /// Foreign keys deferred to break create-graph cycles; added after
    /// everything else.
    pub deferred_fks: Vec<DeferredFkAdd>,
}

/// A single foreign key taken out of the create graph for a post-pass
/// `ALTER TABLE ... ADD CONSTRAINT`.
#[derive(Debug, Clone, PartialEq, Eq)]
pub struct DeferredFkAdd {
    /// Table that owns the constraint.
    pub table: QualifiedName,
    /// The full constraint definition.
    pub constraint: Constraint,
}

/// The model of a deferred foreign key.
#[verifier::ext_equal]
pub struct DeferredFkModel {
    /// Table that owns the constraint.
    pub table: QnameModel,
    /// The constraint.
    pub constraint: ConstraintModel,
}

impl View for DeferredFkAdd {
    type V = DeferredFkModel;

    open spec fn view(&self) -> DeferredFkModel {
        DeferredFkModel { table: self.table@, constraint: self.constraint@ }
    }
}

impl OrderedChangeSet {
    /// Total entries across all buckets.
    pub open spec fn total(self) -> nat {
        self.creates_and_adds@.len() + self.modifies@.len() + self.drops@.len()
            + self.deferred_fks@.len()
    }

    /// True iff every bucket is empty.
    pub fn is_empty(&self) -> (r: bool)
        ensures
            r == (self.total() == 0),
    {
        self.creates_and_adds.is_empty() && self.modifies.is_empty() && self.drops.is_empty()
            && self.deferred_fks.is_empty()
    }

    /// Total entries across all buckets, deferred foreign keys counted too.
    pub fn len(&self) -> (n: usize)
        requires
            self.total() <= usize::MAX,
        ensures
            n == self.total(),
    {
        self.creates_and_adds.len() + self.modifies.len() + self.drops.len()
            + self.deferred_fks.len()
    }
}

impl Default for OrderedChangeSet {
    fn default() -> (set: Self)
        ensures
            set.total() == 0,
    {
        OrderedChangeSet {
            creates_and_adds: Vec::new(),
            modifies: Vec::new(),
            drops: Vec::new(),
            deferred_fks: Vec::new(),
        }
    }
}

} // verus!
