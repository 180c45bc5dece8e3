//! Partition a flat list of steps into transaction groups.
//!
//! Adjacent steps with the same [`TransactionConstraint`] coalesce into one
//! group. Transactional groups run inside a single `BEGIN; ... COMMIT;`;
//! steps of other groups run one by one, in autocommit.

use crate::model::models;
use crate::plan::raw_step::{RawStep, StepModel, TransactionConstraint};
use vstd::prelude::*;

verus! {

/// A run of consecutive [`RawStep`]s that share a transactional
/// classification. Group ids are 1-indexed in emission order.
#[derive(Debug, Clone, PartialEq, Eq)]
pub struct TransactionGroup {
    /// 1-indexed group id (assigned by [`group_steps`]).
    pub id: u32,
    /// True if every step in the group can run inside a single
    /// `BEGIN; ... COMMIT;`.
    pub transactional: bool,
    /// The steps in the group, in emission order.
    pub steps: Vec<RawStep>,
}

/// The model of a group.
#[verifier::ext_equal]
pub struct GroupModel {
    /// Group id.
    pub id: u32,
    /// Whether it runs inside a transaction.
    pub transactional: bool,
    /// Its steps.
    pub steps: Seq<StepModel>,
}

impl View for TransactionGroup {
    type V = GroupModel;

    open spec fn view(&self) -> GroupModel {
        GroupModel {
            id: self.id,
            transactional: self.transactional,
            steps: models(self.steps@),
        }
    }
}

/// The steps of a list of groups, one after the other.
pub open spec fn all_steps(groups: Seq<TransactionGroup>) -> Seq<RawStep>
    decreases groups.len(),
{
    if groups.len() == 0 {
        Seq::empty()
    } else {
        all_steps(groups.drop_last()) + groups.last().steps@
    }
}

/// A group holds at least one step, and only steps of its classification.
pub open spec fn uniform(g: TransactionGroup) -> bool {
    &&& g.steps@.len() > 0
    &&& forall|i: int|
        0 <= i < g.steps@.len() ==> g.transactional == ((#[trigger] g.steps@[i]).transactional
            is InTransaction)
}

/// Group ids count from one, and stay at the largest `u32` from there on.
pub open spec fn group_id(i: int) -> u32 {
    if i + 1 <= u32::MAX {
        (i + 1) as u32
    } else {
        u32::MAX
    }
}

/// `groups` cuts `steps` where the classification changes, and nowhere else.
pub open spec fn is_grouping(steps: Seq<RawStep>, groups: Seq<TransactionGroup>) -> bool {
    &&& all_steps(groups) == steps
    &&& forall|i: int| 0 <= i < groups.len() ==> uniform(#[trigger] groups[i])
    &&& forall|i: int| 0 <= i < groups.len() ==> (#[trigger] groups[i]).id == group_id(i)
    &&& forall|i: int, j: int|
        0 <= i < groups.len() && j == i + 1 && j < groups.len() ==> (#[trigger] groups[i]).transactional
            != (#[trigger] groups[j]).transactional
}

fn next_id(n: usize) -> (id: u32)
    ensures
        id == group_id(n as int),
{
    if n < u32::MAX as usize {
        (n as u32) + 1
    } else {
        u32::MAX
    }
}

/// Partition `steps` into groups by transactional boundary.
///
/// Adjacent steps with the same [`TransactionConstraint`] go in one group;
/// each transition between the two classifications starts a new group. Empty
/// input produces an empty output. Group ids are 1-indexed.
pub fn group_steps(steps: Vec<RawStep>) -> (groups: Vec<TransactionGroup>)
    ensures
        is_grouping(steps@, groups@),
{
    let ghost all = steps@;
    let mut groups: Vec<TransactionGroup> = Vec::new();
    let mut current: Vec<RawStep> = Vec::new();
    let mut inside = true;
    let mut rest = reversed(steps);
    let ghost mut seen: int = 0;
    assert(all_steps(groups@) + current@ =~= all.take(0));
    while rest.len() > 0
        invariant
            0 <= seen <= all.len(),
            rest@ == all.skip(seen).reverse(),
            all_steps(groups@) + current@ == all.take(seen),
            forall|i: int| 0 <= i < groups@.len() ==> uniform(#[trigger] groups@[i]),
            forall|i: int| 0 <= i < groups@.len() ==> (#[trigger] groups@[i]).id == group_id(i),
            forall|i: int, j: int|
                0 <= i < groups@.len() && j == i + 1 && j < groups@.len() ==> (
                #[trigger] groups@[i]).transactional != (#[trigger] groups@[j]).transactional,
            current@.len() == 0 ==> groups@.len() == 0,
            forall|i: int|
                0 <= i < current@.len() ==> inside == ((#[trigger] current@[i]).transactional
                    is InTransaction),
            groups@.len() > 0 ==> groups@.last().transactional != inside,
        decreases rest@.len(),
    {
        let ghost left = rest@;
        let step = match rest.pop() {
            Some(step) => step,
            None => {
                return groups;
            },
        };
        proof {
            assert(step == all[seen]);
            assert(rest@ =~= all.skip(seen + 1).reverse());
            assert(all.take(seen + 1) =~= all.take(seen).push(step));
        }
        let step_inside = matches!(step.transactional, TransactionConstraint::InTransaction);
        if current.len() == 0 {
            inside = step_inside;
            let ghost before = current@;
            current.push(step);
            assert(all_steps(groups@) + current@ =~= all.take(seen + 1));
        } else if inside == step_inside {
            let ghost before = current@;
            current.push(step);
            assert(all_steps(groups@) + current@ =~= (all_steps(groups@) + before).push(step));
        } else {
            let ghost before = groups@;
            let ghost done = current@;
            let group = TransactionGroup {
                id: next_id(groups.len()),
                transactional: inside,
                steps: current,
            };
            groups.push(group);
            inside = step_inside;
            current = Vec::new();
            current.push(step);
            proof {
                assert(groups@.drop_last() =~= before);
                assert(uniform(group));
                assert(all_steps(groups@) == all_steps(before) + done);
                assert(all_steps(groups@) + current@ =~= (all_steps(before) + done).push(step));
            }
        }
        proof {
            seen = seen + 1;
        }
    }
    proof {
        assert(all.skip(seen).reverse().len() == 0);
        assert(all.take(seen) =~= all);
    }
    if current.len() > 0 {
        let ghost before = groups@;
        let ghost done = current@;
        let group = TransactionGroup {
            id: next_id(groups.len()),
            transactional: inside,
            steps: current,
        };
        groups.push(group);
        proof {
            assert(groups@.drop_last() =~= before);
            assert(uniform(group));
        }
    } else {
        assert(all_steps(groups@) + current@ =~= all_steps(groups@));
    }
    groups
}

/// The list in reverse order.
pub fn reversed<T>(list: Vec<T>) -> (r: Vec<T>)
    ensures
        r@ == list@.reverse(),
{
    let ghost all = list@;
    let mut rest = list;
    let mut out: Vec<T> = Vec::new();
    while rest.len() > 0
        invariant
            rest@.len() + out@.len() == all.len(),
            rest@ == all.take(rest@.len() as int),
            forall|i: int| 0 <= i < out@.len() ==> #[trigger] out@[i] == all[all.len() - 1 - i],
        decreases rest@.len(),
    {
        let ghost before = rest@;
        match rest.pop() {
            Some(item) => {
                out.push(item);
            },
            None => {},
        }
        assert(rest@ =~= all.take(rest@.len() as int));
    }
    assert(out@ =~= all.reverse());
    out
}

/// Grouping neither drops, adds nor reorders steps.
pub proof fn law_grouping_keeps_every_step(steps: Seq<RawStep>, groups: Seq<TransactionGroup>)
    requires
        is_grouping(steps, groups),
    ensures
        all_steps(groups) == steps,
        steps.len() == 0 <==> groups.len() == 0,
        groups.len() <= steps.len(),
{
    lemma_groups_hold_steps(groups);
    if groups.len() > 0 {
        assert(uniform(groups.last()));
    }
}

proof fn lemma_groups_hold_steps(groups: Seq<TransactionGroup>)
    requires
        forall|i: int| 0 <= i < groups.len() ==> uniform(#[trigger] groups[i]),
    ensures
        groups.len() <= all_steps(groups).len(),
    decreases groups.len(),
{
    if groups.len() > 0 {
        let before = groups.drop_last();
        assert forall|i: int| 0 <= i < before.len() implies uniform(#[trigger] before[i]) by {
            assert(before[i] == groups[i]);
        }
        lemma_groups_hold_steps(before);
        assert(uniform(groups.last()));
    }
}

} // verus!
