//! Steps for publications.

use crate::diff::change::PublicationChange;
use crate::identifier::QnameModel;
use crate::ir::replication::Publication;
use crate::model::models;
use crate::plan::raw_step::{
    gated_step, no_targets, one_target, push_gated, push_safe, safe_step, RawStep, StepKind,
    StepModel,
};
use crate::plan::rewrite::publications::{
    alter_publication_add_schema, alter_publication_add_table, alter_publication_drop_schema,
    alter_publication_drop_table, alter_publication_set_publish, alter_publication_set_table,
    alter_publication_set_via_root, comment_on_publication, comment_on_publication_sql,
    create_publication, create_publication_sql, drop_publication, drop_publication_sql,
    publication_add_schema_sql, publication_add_table_sql, publication_drop_schema_sql,
    publication_drop_table_sql, publication_set_publish_sql, publication_set_table_sql,
    publication_via_root_sql, replace_publication,
};
use crate::text::{as_deref, opt_text};
use vstd::prelude::*;
use vstd::string::*;

verus! {

/// The steps that create a publication: the publication, then its comment.
pub open spec fn create_steps(p: Publication) -> Seq<StepModel> {
    let first = seq![
        safe_step(StepKind::CreatePublication, Seq::empty(), create_publication_sql(p)),
    ];
    match p.comment {
        Some(c) => first.push(
            safe_step(
                StepKind::CommentOnPublication,
                Seq::empty(),
                comment_on_publication_sql(p.name, Some(c@)),
            ),
        ),
        None => first,
    }
}

/// The steps for a change of a publication.
#[verifier::opaque]
pub open spec fn publication_steps(
    change: PublicationChange,
    destructive: bool,
    reason: Option<Seq<char>>,
) -> Seq<StepModel> {
    let nothing = Seq::<QnameModel>::empty();
    match change {
        PublicationChange::Create(p) => create_steps(p),
        PublicationChange::Drop { name } => seq![
            gated_step(
                StepKind::DropPublication,
                destructive,
                reason,
                nothing,
                drop_publication_sql(name),
            ),
        ],
        PublicationChange::Replace { from, to } => seq![
            gated_step(
                StepKind::ReplacePublication,
                destructive,
                reason,
                nothing,
                drop_publication_sql(from.name) + "\n"@ + create_publication_sql(to),
            ),
        ],
        PublicationChange::AddTable { publication, table } => seq![
            safe_step(
                StepKind::AlterPublicationAddTable,
                seq![table.qname@],
                publication_add_table_sql(publication, table),
            ),
        ],
        PublicationChange::DropTable { publication, qname } => seq![
            safe_step(
                StepKind::AlterPublicationDropTable,
                seq![qname@],
                publication_drop_table_sql(publication, qname),
            ),
        ],
        PublicationChange::SetTable { publication, table } => seq![
            safe_step(
                StepKind::AlterPublicationSetTable,
                seq![table.qname@],
                publication_set_table_sql(publication, table),
            ),
        ],
        PublicationChange::AddSchema { publication, schema } => seq![
            safe_step(
                StepKind::AlterPublicationAddSchema,
                nothing,
                publication_add_schema_sql(publication, schema),
            ),
        ],
        PublicationChange::DropSchema { publication, schema } => seq![
            safe_step(
                StepKind::AlterPublicationDropSchema,
                nothing,
                publication_drop_schema_sql(publication, schema),
            ),
        ],
        PublicationChange::SetPublish { publication, kinds } => seq![
            safe_step(
                StepKind::AlterPublicationSetPublish,
                nothing,
                publication_set_publish_sql(publication, kinds),
            ),
        ],
        PublicationChange::SetViaRoot { publication, value } => seq![
            safe_step(
                StepKind::AlterPublicationSetViaRoot,
                nothing,
                publication_via_root_sql(publication, value),
            ),
        ],
        PublicationChange::CommentOn { name, comment } => seq![
            safe_step(
                StepKind::CommentOnPublication,
                nothing,
                comment_on_publication_sql(name, opt_text(comment)),
            ),
        ],
    }
}

/// Emits the steps for a change of a publication.
pub fn emit(
    change: PublicationChange,
    destructive: bool,
    destructive_reason: Option<String>,
    out: &mut Vec<RawStep>,
)
    ensures
        models(final(out)@) == models(old(out)@) + publication_steps(
            change,
            destructive,
            opt_text(destructive_reason),
        ),
{
    let ghost before = models(out@);
    match &change {
        PublicationChange::Create(p) => {
            push_safe(out, StepKind::CreatePublication, no_targets(), create_publication(p));
            match &p.comment {
                Some(c) => {
                    push_safe(
                        out,
                        StepKind::CommentOnPublication,
                        no_targets(),
                        comment_on_publication(&p.name, Some(c.as_str())),
                    );
                },
                None => {},
            }
        },
        PublicationChange::Drop { name } => {
            push_gated(
                out,
                StepKind::DropPublication,
                destructive,
                destructive_reason,
                no_targets(),
                drop_publication(name),
            );
        },
        PublicationChange::Replace { from, to } => {
            let (drop_sql, create_sql) = replace_publication(from, to);
            let mut sql = drop_sql;
            sql.append("\n");
            sql.append(create_sql.as_str());
            push_gated(
                out,
                StepKind::ReplacePublication,
                destructive,
                destructive_reason,
                no_targets(),
                sql,
            );
        },
        PublicationChange::AddTable { publication, table } => {
            push_safe(
                out,
                StepKind::AlterPublicationAddTable,
                one_target(&table.qname),
                alter_publication_add_table(publication, table),
            );
        },
        PublicationChange::DropTable { publication, qname } => {
            push_safe(
                out,
                StepKind::AlterPublicationDropTable,
                one_target(qname),
                alter_publication_drop_table(publication, qname),
            );
        },
        PublicationChange::SetTable { publication, table } => {
            push_safe(
                out,
                StepKind::AlterPublicationSetTable,
                one_target(&table.qname),
                alter_publication_set_table(publication, table),
            );
        },
        PublicationChange::AddSchema { publication, schema } => {
            push_safe(
                out,
                StepKind::AlterPublicationAddSchema,
                no_targets(),
                alter_publication_add_schema(publication, schema),
            );
        },
        PublicationChange::DropSchema { publication, schema } => {
            push_safe(
                out,
                StepKind::AlterPublicationDropSchema,
                no_targets(),
                alter_publication_drop_schema(publication, schema),
            );
        },
        PublicationChange::SetPublish { publication, kinds } => {
            push_safe(
                out,
                StepKind::AlterPublicationSetPublish,
                no_targets(),
                alter_publication_set_publish(publication, *kinds),
            );
        },
        PublicationChange::SetViaRoot { publication, value } => {
            push_safe(
                out,
                StepKind::AlterPublicationSetViaRoot,
                no_targets(),
                alter_publication_set_via_root(publication, *value),
            );
        },
        PublicationChange::CommentOn { name, comment } => {
            push_safe(
                out,
                StepKind::CommentOnPublication,
                no_targets(),
                comment_on_publication(name, as_deref(comment)),
            );
        },
    }
    proof {
        reveal(publication_steps);
    }
    assert(models(out@) =~= before + publication_steps(
        change,
        destructive,
        opt_text(destructive_reason),
    ));
}

} // verus!
