//! Feature switches that gate the rewrite pass.
//!
//! - [`Strategy::Online`] applies every enabled rewrite (default).
//! - [`Strategy::Atomic`] short-circuits every online switch to `false`, so
//!   that no online rewrite applies and every step runs inside the
//!   transaction, but for changes that cannot run there under any strategy:
//!   creating a subscription with a slot, dropping a subscription, and
//!   creating a procedure whose body commits.
//!
//! Read the effective switch values through the methods of
//! [`PlannerPolicy`]; do not read [`OnlineRewrites`] directly, because
//! `Atomic` makes the individual switches inert.

use vstd::prelude::*;

verus! {

/// Top-level rewrite strategy.
#[derive(Debug, Clone, Copy, PartialEq, Eq, Hash, Structural)]
pub enum Strategy {
    /// All operations that can run inside one transaction do; no online
    /// rewrites apply.
    Atomic,
    /// Apply each enabled rewrite from [`OnlineRewrites`].
    Online,
}

/// Per-rewrite enable switches. Only consulted when [`Strategy::Online`].
#[derive(Debug, Clone, Copy, PartialEq, Eq, Structural)]
pub struct OnlineRewrites {
    /// `CreateIndex` (non-unique, on existing table) becomes
    /// `CREATE INDEX CONCURRENTLY`.
    pub create_index_concurrent: bool,
    /// `AddConstraint(ForeignKey)` on an existing table becomes `NOT VALID`
    /// and `VALIDATE`.
    pub fk_not_valid_then_validate: bool,
    /// `AddConstraint(Check)` on an existing table becomes `NOT VALID` and
    /// `VALIDATE`.
    pub check_not_valid_then_validate: bool,
    /// `SetColumnNullable { nullable: false }` on a populated column becomes
    /// `ADD CHECK NOT VALID`, `VALIDATE`, `SET NOT NULL`, `DROP CONSTRAINT`.
    pub not_null_via_check_pattern: bool,
    /// `REFRESH MATERIALIZED VIEW` becomes `REFRESH MATERIALIZED VIEW
    /// CONCURRENTLY` when the view has at least one unique index.
    pub refresh_mv_concurrently: bool,
    /// Walk transitively affected views and emit explicit DROP and CREATE
    /// steps for them. When `false`, the planner fails, naming every affected
    /// view, if any change would force dependent views to be recreated.
    pub view_drop_create_dependents: bool,
}

impl OnlineRewrites {
    /// All rewrites enabled (default).
    pub fn all_enabled() -> (r: Self)
        ensures
            r == (OnlineRewrites {
                create_index_concurrent: true,
                fk_not_valid_then_validate: true,
                check_not_valid_then_validate: true,
                not_null_via_check_pattern: true,
                refresh_mv_concurrently: true,
                view_drop_create_dependents: true,
            }),
    {
        OnlineRewrites {
            create_index_concurrent: true,
            fk_not_valid_then_validate: true,
            check_not_valid_then_validate: true,
            not_null_via_check_pattern: true,
            refresh_mv_concurrently: true,
            view_drop_create_dependents: true,
        }
    }

    /// All rewrites disabled.
    pub fn all_disabled() -> (r: Self)
        ensures
            r == (OnlineRewrites {
                create_index_concurrent: false,
                fk_not_valid_then_validate: false,
                check_not_valid_then_validate: false,
                not_null_via_check_pattern: false,
                refresh_mv_concurrently: false,
                view_drop_create_dependents: false,
            }),
    {
        OnlineRewrites {
            create_index_concurrent: false,
            fk_not_valid_then_validate: false,
            check_not_valid_then_validate: false,
            not_null_via_check_pattern: false,
            refresh_mv_concurrently: false,
            view_drop_create_dependents: false,
        }
    }
}

/// Top-level planner policy: strategy, per-rewrite switches, ruleset version.
#[derive(Debug, Clone, Copy, PartialEq, Eq, Structural)]
pub struct PlannerPolicy {
    /// Strategy. [`Strategy::Atomic`] forces every online switch to `false`.
    pub strategy: Strategy,
    /// Per-rewrite switches; honored iff `strategy == Online`.
    pub online: OnlineRewrites,
    /// Ruleset version that goes into the plan id.
    pub planner_ruleset_version: u32,
}

impl PlannerPolicy {
    /// A switch that only counts under [`Strategy::Online`].
    pub open spec fn effective(self, switch: bool) -> bool {
        self.strategy is Online && switch
    }

    /// Is the `create_index_concurrent` rewrite effectively enabled?
    pub fn create_index_concurrent(&self) -> (r: bool)
        ensures
            r == self.effective(self.online.create_index_concurrent),
    {
        matches!(self.strategy, Strategy::Online) && self.online.create_index_concurrent
    }

    /// Is the foreign key `NOT VALID` and `VALIDATE` rewrite effectively
    /// enabled?
    pub fn fk_not_valid_then_validate(&self) -> (r: bool)
        ensures
            r == self.effective(self.online.fk_not_valid_then_validate),
    {
        matches!(self.strategy, Strategy::Online) && self.online.fk_not_valid_then_validate
    }

    /// Is the CHECK `NOT VALID` and `VALIDATE` rewrite effectively enabled?
    pub fn check_not_valid_then_validate(&self) -> (r: bool)
        ensures
            r == self.effective(self.online.check_not_valid_then_validate),
    {
        matches!(self.strategy, Strategy::Online) && self.online.check_not_valid_then_validate
    }

    /// Is the `SET NOT NULL` via CHECK pattern effectively enabled?
    pub fn not_null_via_check_pattern(&self) -> (r: bool)
        ensures
            r == self.effective(self.online.not_null_via_check_pattern),
    {
        matches!(self.strategy, Strategy::Online) && self.online.not_null_via_check_pattern
    }

    /// Is the `REFRESH MATERIALIZED VIEW CONCURRENTLY` upgrade effectively
    /// enabled?
    pub fn refresh_mv_concurrently(&self) -> (r: bool)
        ensures
            r == self.effective(self.online.refresh_mv_concurrently),
    {
        matches!(self.strategy, Strategy::Online) && self.online.refresh_mv_concurrently
    }

    /// Is the dependent-view DROP and CREATE walk effectively enabled?
    ///
    /// This switch is consulted in atomic mode too, because it decides
    /// between walking and failing; it is no online-only optimization.
    pub fn view_drop_create_dependents(&self) -> (r: bool)
        ensures
            r == self.online.view_drop_create_dependents,
    {
        self.online.view_drop_create_dependents
    }

    /// True iff the strategy is `Online` (i.e., online rewrites may run).
    pub fn is_online(&self) -> (r: bool)
        ensures
            r == self.strategy is Online,
    {
        matches!(self.strategy, Strategy::Online)
    }
}

impl Default for PlannerPolicy {
    fn default() -> (policy: Self)
        ensures
            policy.strategy is Online,
            policy.online == (OnlineRewrites {
                create_index_concurrent: true,
                fk_not_valid_then_validate: true,
                check_not_valid_then_validate: true,
                not_null_via_check_pattern: true,
                refresh_mv_concurrently: true,
                view_drop_create_dependents: true,
            }),
            policy.planner_ruleset_version == 1,
    {
        PlannerPolicy {
            strategy: Strategy::Online,
            online: OnlineRewrites::all_enabled(),
            planner_ruleset_version: 1,
        }
    }
}

} // verus!
