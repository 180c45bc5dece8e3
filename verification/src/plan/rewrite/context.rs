//! What every emitter may read.

use crate::ir::catalog::Catalog;
use crate::plan::policy::PlannerPolicy;
use vstd::prelude::*;

verus! {

/// What every emitter may read.
pub struct Ctx<'a> {
    /// The live catalog.
    pub target: &'a Catalog,
    /// The desired catalog.
    pub source: &'a Catalog,
    /// The policy.
    pub policy: &'a PlannerPolicy,
}

} // verus!
