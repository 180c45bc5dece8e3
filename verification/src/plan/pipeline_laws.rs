//! What the whole way from an ordered change set to a plan keeps.

use crate::ir::catalog::Catalog;
use crate::model::models;
use crate::plan::deserialize::{placement, with_reasons};
use crate::plan::grouping::{all_steps, is_grouping, uniform, GroupModel, TransactionGroup};
use crate::plan::ordered::OrderedChangeSet;
use crate::plan::plan::{intents_of, numbered, same_shape, steps_of};
use crate::plan::policy::PlannerPolicy;
use crate::plan::raw_step::RawStep;
use crate::plan::rewrite::rewrite_laws::{
    law_rewritten_steps_are_proper, proper, some_leaves_transaction,
};
use crate::plan::rewrite::rewritten;
use crate::plan::round_trip::{law_groups_come_back, unassigned, unreasoned_groups};
use vstd::prelude::*;

verus! {

/// The steps of the models of groups are the models of their steps.
proof fn lemma_steps_of_models(groups: Seq<TransactionGroup>)
    ensures
        steps_of(models(groups)) == models(all_steps(groups)),
    decreases groups.len(),
{
    if groups.len() == 0 {
        assert(models(all_steps(groups)) =~= Seq::empty());
    } else {
        let rest = groups.drop_last();
        lemma_steps_of_models(rest);
        assert(models(groups).drop_last() =~= models(rest));
        assert(models(groups).last() == groups.last()@);
        assert(models(all_steps(rest) + groups.last().steps@) =~= models(all_steps(rest)) + models(
            groups.last().steps@,
        ));
    }
}

/// Grouping loses no step of a rewritten change set: the steps of the groups,
/// one after the other, are the steps of the pass.
pub proof fn law_groups_hold_the_rewritten_steps(
    ordered: OrderedChangeSet,
    target: Catalog,
    source: Catalog,
    policy: PlannerPolicy,
    steps: Seq<RawStep>,
    groups: Seq<TransactionGroup>,
)
    requires
        models(steps) == rewritten(ordered, target, source, policy),
        is_grouping(steps, groups),
    ensures
        steps_of(models(groups)) == rewritten(ordered, target, source, policy),
{
    lemma_steps_of_models(groups);
}

/// Under the atomic strategy a plan has at most one group, and it runs inside
/// a transaction, unless a change needs to leave it under every policy.
pub proof fn law_atomic_plans_are_one_transaction(
    ordered: OrderedChangeSet,
    target: Catalog,
    source: Catalog,
    policy: PlannerPolicy,
    steps: Seq<RawStep>,
    groups: Seq<TransactionGroup>,
)
    requires
        models(steps) == rewritten(ordered, target, source, policy),
        is_grouping(steps, groups),
        policy.strategy is Atomic,
        !some_leaves_transaction(ordered.creates_and_adds@),
        !some_leaves_transaction(ordered.modifies@),
        !some_leaves_transaction(ordered.drops@),
    ensures
        groups.len() <= 1,
        groups.len() == 1 ==> groups[0].transactional,
{
    law_rewritten_steps_are_proper(ordered, target, source, policy);
    assert forall|g: int| 0 <= g < groups.len() implies (#[trigger] groups[g]).transactional by {
        assert(uniform(groups[g]));
        let step = groups[g].steps@[0];
        let at = lemma_member(groups, g, 0);
        assert(steps[at] == step);
        assert(models(steps)[at] == step@);
        assert(proper(models(steps)[at], true));
    }
    if groups.len() >= 2 {
        assert(groups[0].transactional != groups[1].transactional);
    }
}

/// A step of a group stands somewhere among all steps.
proof fn lemma_member(groups: Seq<TransactionGroup>, g: int, k: int) -> (at: int)
    requires
        0 <= g < groups.len(),
        0 <= k < groups[g].steps@.len(),
    ensures
        0 <= at < all_steps(groups).len(),
        all_steps(groups)[at] == groups[g].steps@[k],
    decreases groups.len(),
{
    let rest = groups.drop_last();
    if g == groups.len() - 1 {
        all_steps(rest).len() as int + k
    } else {
        lemma_member(rest, g, k)
    }
}

/// A plan made from a change set comes back from its files: numbering its
/// groups, leaving out the reasons as `plan.sql` does, and taking them from the
/// intents gives the numbered groups.
pub proof fn law_planned_groups_come_back(
    ordered: OrderedChangeSet,
    target: Catalog,
    source: Catalog,
    policy: PlannerPolicy,
    steps: Seq<RawStep>,
    given: Seq<TransactionGroup>,
    groups: Seq<GroupModel>,
)
    requires
        models(steps) == rewritten(ordered, target, source, policy),
        is_grouping(steps, given),
        steps.len() <= u32::MAX,
        steps_of(groups) == numbered(steps_of(models(given))),
    ensures
        unreasoned_groups(groups).map_values(
            |g: GroupModel| with_reasons(g, intents_of(steps_of(models(given)))),
        ) == groups,
{
    lemma_steps_of_models(given);
    law_rewritten_steps_are_proper(ordered, target, source, policy);
    let all = steps_of(models(given));
    assert forall|k: int| 0 <= k < all.len() implies unassigned(#[trigger] all[k]) by {
        assert(all[k] == rewritten(ordered, target, source, policy)[k]);
    }
    law_groups_come_back(models(given), groups);
}

/// In a plan made from grouped steps every step runs as its group does, which
/// is what `plan.sql` writes down of it.
pub proof fn law_steps_run_as_their_groups(
    steps: Seq<RawStep>,
    given: Seq<TransactionGroup>,
    groups: Seq<GroupModel>,
    g: int,
    k: int,
)
    requires
        is_grouping(steps, given),
        same_shape(models(given), groups),
        steps_of(groups) == numbered(steps_of(models(given))),
        0 <= g < groups.len(),
        0 <= k < groups[g].steps.len(),
    ensures
        groups[g].steps[k].transactional == placement(groups[g].transactional),
{
    let before = models(given);
    lemma_same_place(before, groups, g, k);
    assert(before[g] == given[g]@);
    assert(uniform(given[g]));
    assert(before[g].steps[k] == given[g].steps@[k]@);
}

/// In two lists of groups of one shape a step has the same place.
proof fn lemma_same_place(a: Seq<GroupModel>, b: Seq<GroupModel>, g: int, k: int)
    requires
        same_shape(a, b),
        steps_of(b) == numbered(steps_of(a)),
        0 <= g < b.len(),
        0 <= k < b[g].steps.len(),
    ensures
        b[g].steps[k].transactional == a[g].steps[k].transactional,
{
    let n = steps_of(a.take(g)).len() as int;
    lemma_place(a, g, k);
    lemma_place(b, g, k);
    lemma_same_length(a.take(g), b.take(g));
}

proof fn lemma_place(groups: Seq<GroupModel>, g: int, k: int)
    requires
        0 <= g < groups.len(),
        0 <= k < groups[g].steps.len(),
    ensures
        0 <= steps_of(groups.take(g)).len() + k < steps_of(groups).len(),
        steps_of(groups)[steps_of(groups.take(g)).len() + k] == groups[g].steps[k],
    decreases groups.len(),
{
    let rest = groups.drop_last();
    if g == groups.len() - 1 {
        assert(groups.take(g) =~= rest);
    } else {
        lemma_place(rest, g, k);
        assert(rest.take(g) =~= groups.take(g));
    }
}

proof fn lemma_same_length(a: Seq<GroupModel>, b: Seq<GroupModel>)
    requires
        same_shape(a, b),
    ensures
        steps_of(a).len() == steps_of(b).len(),
    decreases a.len(),
{
    if a.len() > 0 {
        assert(a.last().steps.len() == b.last().steps.len()) by {
            assert(a[a.len() - 1].steps.len() == b[a.len() - 1].steps.len());
        }
        assert forall|i: int| 0 <= i < a.len() - 1 implies (#[trigger] a.drop_last()[i]).id
            == b.drop_last()[i].id && a.drop_last()[i].transactional
            == b.drop_last()[i].transactional && a.drop_last()[i].steps.len()
            == b.drop_last()[i].steps.len() by {
            assert(a[i].id == b[i].id);
        }
        lemma_same_length(a.drop_last(), b.drop_last());
    }
}

} // verus!
