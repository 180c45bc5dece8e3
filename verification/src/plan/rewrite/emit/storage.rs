//! Steps for storage options.

use crate::identifier::QualifiedName;
use crate::ir::reloptions::{
    IndexStorageOptions, MaterializedViewStorageOptions, TableStorageOptions,
};
use crate::model::models;
use crate::plan::raw_step::{one_target, push_safe, safe_step, RawStep, StepKind, StepModel};
use crate::plan::rewrite::reloptions::{
    alter_index_set_storage, alter_mv_set_storage, alter_table_set_storage, index_storage_sql,
    mv_storage_sql, table_storage_sql,
};
use vstd::prelude::*;

verus! {

/// The step that sets a table's options.
#[verifier::opaque]
pub open spec fn table_steps(q: QualifiedName, o: TableStorageOptions) -> Seq<StepModel> {
    seq![safe_step(StepKind::SetTableStorage, seq![q@], table_storage_sql(q, o))]
}

/// Sets a table's options.
pub fn table(q: QualifiedName, o: TableStorageOptions, out: &mut Vec<RawStep>)
    ensures
        models(final(out)@) == models(old(out)@) + table_steps(q, o),
{
    let ghost before = models(out@);
    push_safe(out, StepKind::SetTableStorage, one_target(&q), alter_table_set_storage(&q, &o));
    proof {
        reveal(table_steps);
    }
    assert(models(out@) =~= before + table_steps(q, o));
}

/// The step that sets an index's options.
#[verifier::opaque]
pub open spec fn index_steps(q: QualifiedName, o: IndexStorageOptions) -> Seq<StepModel> {
    seq![safe_step(StepKind::SetIndexStorage, seq![q@], index_storage_sql(q, o))]
}

/// Sets an index's options.
pub fn index(q: QualifiedName, o: IndexStorageOptions, out: &mut Vec<RawStep>)
    ensures
        models(final(out)@) == models(old(out)@) + index_steps(q, o),
{
    let ghost before = models(out@);
    push_safe(out, StepKind::SetIndexStorage, one_target(&q), alter_index_set_storage(&q, &o));
    proof {
        reveal(index_steps);
    }
    assert(models(out@) =~= before + index_steps(q, o));
}

/// The step that sets a materialized view's options.
#[verifier::opaque]
pub open spec fn mv_steps(q: QualifiedName, o: MaterializedViewStorageOptions) -> Seq<StepModel> {
    seq![safe_step(StepKind::SetMaterializedViewStorage, seq![q@], mv_storage_sql(q, o))]
}

/// Sets a materialized view's options.
pub fn mv(q: QualifiedName, o: MaterializedViewStorageOptions, out: &mut Vec<RawStep>)
    ensures
        models(final(out)@) == models(old(out)@) + mv_steps(q, o),
{
    let ghost before = models(out@);
    push_safe(
        out,
        StepKind::SetMaterializedViewStorage,
        one_target(&q),
        alter_mv_set_storage(&q, &o),
    );
    proof {
        reveal(mv_steps);
    }
    assert(models(out@) =~= before + mv_steps(q, o));
}

} // verus!
