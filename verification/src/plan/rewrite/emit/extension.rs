//! Steps for extensions.

use crate::diff::change::ExtensionChange;
use crate::identifier::{Identifier, QnameModel, QualifiedName};
use crate::ir::extension::Extension;
use crate::model::{models, Duplicate};
use crate::plan::raw_step::{
    gated_step, one_target, push_gated, push_safe, safe_step, RawStep, StepKind, StepModel,
};
use crate::plan::rewrite::extensions::{
    alter_extension_update, comment_on_extension, comment_on_extension_sql, create_extension,
    create_extension_sql, drop_extension, drop_extension_sql, update_extension_sql,
};
use crate::text::{as_deref, opt_text};
use vstd::prelude::*;

verus! {

/// Extensions live outside of schemas; their targets are in a schema
/// `pg_extension` that stands for that.
pub open spec fn extension_name(name: Seq<char>) -> QnameModel {
    QnameModel { schema: "pg_extension"@, name }
}

/// The target of a step on an extension.
fn extension_target(name: &Identifier) -> (q: QualifiedName)
    ensures
        q@ == extension_name(name@),
{
    QualifiedName::new(Identifier::pg_extension(), name.duplicate())
}

/// The steps that create an extension: the extension, then its comment.
pub open spec fn create_steps(
    e: Extension,
    destructive: bool,
    reason: Option<Seq<char>>,
) -> Seq<StepModel> {
    let first = seq![
        gated_step(
            StepKind::CreateExtension,
            destructive,
            reason,
            seq![extension_name(e.name@)],
            create_extension_sql(e),
        ),
    ];
    match e.comment {
        Some(c) => first.push(
            safe_step(
                StepKind::CommentOnExtension,
                seq![extension_name(e.name@)],
                comment_on_extension_sql(e.name, Some(c@)),
            ),
        ),
        None => first,
    }
}

/// The steps for a change of an extension.
#[verifier::opaque]
pub open spec fn extension_steps(
    ec: ExtensionChange,
    destructive: bool,
    reason: Option<Seq<char>>,
) -> Seq<StepModel> {
    match ec {
        ExtensionChange::Create(e) => create_steps(e, destructive, reason),
        ExtensionChange::Drop(name) => seq![
            gated_step(
                StepKind::DropExtension,
                destructive,
                reason,
                seq![extension_name(name@)],
                drop_extension_sql(name),
            ),
        ],
        ExtensionChange::AlterUpdate { name, to_version } => seq![
            safe_step(
                StepKind::AlterExtensionUpdate,
                seq![extension_name(name@)],
                update_extension_sql(name, to_version@),
            ),
        ],
        ExtensionChange::ReplaceWithCascade(e) => seq![
            gated_step(
                StepKind::DropExtension,
                destructive,
                reason,
                seq![extension_name(e.name@)],
                drop_extension_sql(e.name),
            ),
            safe_step(
                StepKind::CreateExtension,
                seq![extension_name(e.name@)],
                create_extension_sql(e),
            ),
        ],
        ExtensionChange::CommentOn { name, comment } => seq![
            safe_step(
                StepKind::CommentOnExtension,
                seq![extension_name(name@)],
                comment_on_extension_sql(name, opt_text(comment)),
            ),
        ],
    }
}

/// Emits the steps for a change of an extension.
pub fn emit(
    ec: ExtensionChange,
    destructive: bool,
    destructive_reason: Option<String>,
    out: &mut Vec<RawStep>,
)
    ensures
        models(final(out)@) == models(old(out)@) + extension_steps(
            ec,
            destructive,
            opt_text(destructive_reason),
        ),
{
    let ghost before = models(out@);
    match &ec {
        ExtensionChange::Create(e) => {
            push_gated(
                out,
                StepKind::CreateExtension,
                destructive,
                destructive_reason,
                one_target(&extension_target(&e.name)),
                create_extension(e),
            );
            match &e.comment {
                Some(c) => {
                    push_safe(
                        out,
                        StepKind::CommentOnExtension,
                        one_target(&extension_target(&e.name)),
                        comment_on_extension(&e.name, Some(c.as_str())),
                    );
                },
                None => {},
            }
        },
        ExtensionChange::Drop(name) => {
            push_gated(
                out,
                StepKind::DropExtension,
                destructive,
                destructive_reason,
                one_target(&extension_target(name)),
                drop_extension(name),
            );
        },
        ExtensionChange::AlterUpdate { name, to_version } => {
            push_safe(
                out,
                StepKind::AlterExtensionUpdate,
                one_target(&extension_target(name)),
                alter_extension_update(name, to_version.as_str()),
            );
        },
        ExtensionChange::ReplaceWithCascade(e) => {
            push_gated(
                out,
                StepKind::DropExtension,
                destructive,
                destructive_reason,
                one_target(&extension_target(&e.name)),
                drop_extension(&e.name),
            );
            push_safe(
                out,
                StepKind::CreateExtension,
                one_target(&extension_target(&e.name)),
                create_extension(e),
            );
        },
        ExtensionChange::CommentOn { name, comment } => {
            push_safe(
                out,
                StepKind::CommentOnExtension,
                one_target(&extension_target(name)),
                comment_on_extension(name, as_deref(comment)),
            );
        },
    }
    proof {
        reveal(extension_steps);
    }
    assert(models(out@) =~= before + extension_steps(
        ec,
        destructive,
        opt_text(destructive_reason),
    ));
}

} // verus!
