//! Steps for sequences.

use crate::diff::sequence_op::{SequenceOp, SequenceOpEntry};
use crate::identifier::QualifiedName;
use crate::ir::sequence::Sequence;
use crate::model::models;
use crate::plan::raw_step::{
    gated_step, one_target, push_gated, push_safe, safe_step, RawStep, StepKind, StepModel,
};
use crate::plan::rewrite::sql::{
    alter_sequence_cache, alter_sequence_cycle, alter_sequence_data_type,
    alter_sequence_increment, alter_sequence_max_value, alter_sequence_min_value,
    alter_sequence_owned_by, create_sequence, create_sequence_sql, drop_sequence,
    drop_sequence_sql, sequence_cache_sql, sequence_cycle_sql, sequence_increment_sql,
    sequence_max_sql, sequence_min_sql, sequence_owned_by_sql, sequence_type_sql,
};
use crate::plan::rewrite::targets::destructive_reason;
use crate::text::{finish_comment, opt_text, prefixed, with_comment, ToSql};
use vstd::prelude::*;

verus! {

/// `COMMENT ON SEQUENCE name IS '...';`
pub open spec fn comment_on_sequence_sql(q: QualifiedName, comment: Seq<char>) -> Seq<char> {
    with_comment("COMMENT ON SEQUENCE "@ + q@.sql(), Some(comment))
}

/// The steps that create a sequence: the sequence, then its comment.
#[verifier::opaque]
pub open spec fn create_steps(s: Sequence) -> Seq<StepModel> {
    let first = seq![
        safe_step(StepKind::CreateSequence, seq![s.qname@], create_sequence_sql(s)),
    ];
    match s.comment {
        Some(c) => first.push(
            safe_step(
                StepKind::AlterSequence,
                seq![s.qname@],
                comment_on_sequence_sql(s.qname, c@),
            ),
        ),
        None => first,
    }
}

/// Creates a sequence. That is never destructive.
pub fn create(
    s: Sequence,
    _destructive: bool,
    _destructive_reason: Option<String>,
    out: &mut Vec<RawStep>,
)
    ensures
        models(final(out)@) == models(old(out)@) + create_steps(s),
{
    let ghost before = models(out@);
    push_safe(out, StepKind::CreateSequence, one_target(&s.qname), create_sequence(&s));
    match &s.comment {
        Some(c) => {
            push_safe(
                out,
                StepKind::AlterSequence,
                one_target(&s.qname),
                finish_comment(prefixed("COMMENT ON SEQUENCE ", &s.qname), Some(c.as_str())),
            );
        },
        None => {},
    }
    proof {
        reveal(create_steps);
    }
    assert(models(out@) =~= before + create_steps(s));
}

/// The step that drops a sequence.
#[verifier::opaque]
pub open spec fn drop_steps(
    q: QualifiedName,
    destructive: bool,
    reason: Option<Seq<char>>,
) -> Seq<StepModel> {
    seq![
        gated_step(StepKind::DropSequence, destructive, reason, seq![q@], drop_sequence_sql(q)),
    ]
}

/// Drops a sequence.
pub fn drop_(
    q: QualifiedName,
    destructive: bool,
    destructive_reason: Option<String>,
    out: &mut Vec<RawStep>,
)
    ensures
        models(final(out)@) == models(old(out)@) + drop_steps(
            q,
            destructive,
            opt_text(destructive_reason),
        ),
{
    let ghost before = models(out@);
    push_gated(
        out,
        StepKind::DropSequence,
        destructive,
        destructive_reason,
        one_target(&q),
        drop_sequence(&q),
    );
    proof {
        reveal(drop_steps);
    }
    assert(models(out@) =~= before + drop_steps(q, destructive, opt_text(destructive_reason)));
}

/// The statement for one operation.
pub open spec fn op_sql(q: QualifiedName, op: SequenceOp) -> Seq<char> {
    match op {
        SequenceOp::SetIncrement(n) => sequence_increment_sql(q, n),
        SequenceOp::SetMinValue(v) => sequence_min_sql(q, v),
        SequenceOp::SetMaxValue(v) => sequence_max_sql(q, v),
        SequenceOp::SetCache(n) => sequence_cache_sql(q, n),
        SequenceOp::SetCycle(b) => sequence_cycle_sql(q, b),
        SequenceOp::SetDataType(t) => sequence_type_sql(q, t),
        SequenceOp::SetOwnedBy(o) => sequence_owned_by_sql(q, o),
    }
}

/// The step for one operation.
pub open spec fn op_step(q: QualifiedName, entry: SequenceOpEntry) -> StepModel {
    let reason = entry.destructiveness.reason_text();
    gated_step(
        StepKind::AlterSequence,
        reason is Some,
        reason,
        seq![q@],
        op_sql(q, entry.op),
    )
}

/// The steps for a list of operations, one each.
pub open spec fn alter_steps(q: QualifiedName, ops: Seq<SequenceOpEntry>) -> Seq<StepModel> {
    ops.map_values(|entry: SequenceOpEntry| op_step(q, entry))
}

/// Alters a sequence.
pub fn alter(q: QualifiedName, ops: Vec<SequenceOpEntry>, out: &mut Vec<RawStep>)
    ensures
        models(final(out)@) == models(old(out)@) + alter_steps(q, ops@),
{
    let ghost before = models(out@);
    let mut i: usize = 0;
    assert(models(out@) =~= before + alter_steps(q, ops@.take(0)));
    while i < ops.len()
        invariant
            i <= ops@.len(),
            models(out@) == before + alter_steps(q, ops@.take(i as int)),
        decreases ops@.len() - i,
    {
        op(&q, &ops[i], out);
        assert(models(out@) =~= before + alter_steps(q, ops@.take(i + 1)));
        i = i + 1;
    }
    assert(ops@.take(ops@.len() as int) =~= ops@);
}

fn op(q: &QualifiedName, entry: &SequenceOpEntry, out: &mut Vec<RawStep>)
    ensures
        models(final(out)@) == models(old(out)@).push(op_step(*q, *entry)),
{
    let sql = match &entry.op {
        SequenceOp::SetIncrement(n) => alter_sequence_increment(q, *n),
        SequenceOp::SetMinValue(v) => alter_sequence_min_value(q, *v),
        SequenceOp::SetMaxValue(v) => alter_sequence_max_value(q, *v),
        SequenceOp::SetCache(n) => alter_sequence_cache(q, *n),
        SequenceOp::SetCycle(b) => alter_sequence_cycle(q, *b),
        SequenceOp::SetDataType(t) => alter_sequence_data_type(q, t),
        SequenceOp::SetOwnedBy(o) => alter_sequence_owned_by(q, o),
    };
    push_gated(
        out,
        StepKind::AlterSequence,
        entry.destructiveness.requires_approval(),
        destructive_reason(&entry.destructiveness),
        one_target(q),
        sql,
    );
}

} // verus!
