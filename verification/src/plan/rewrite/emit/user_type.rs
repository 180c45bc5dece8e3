//! Steps for user-defined types.

use crate::diff::change::UserTypeChange;
use crate::identifier::QualifiedName;
use crate::ir::catalog::Catalog;
use crate::ir::user_type::{UserType, UserTypeKind};
use crate::model::models;
use crate::plan::raw_step::{
    gated_step, one_target, push_gated, push_safe, safe_step, RawStep, StepKind, StepModel,
};
use crate::plan::rewrite::context::Ctx;
use crate::plan::rewrite::types::{
    add_attribute_sql, add_value_sql, alter_attribute_type_sql, comment_on_type_sql,
    create_type_sql, domain_add_check_sql, domain_default_sql, domain_drop_check_sql,
    domain_not_null_sql, drop_attribute_sql, drop_type_cascade_sql, drop_type_sql,
    emit_alter_domain_add_check, emit_alter_domain_drop_check, emit_alter_domain_set_default,
    emit_alter_domain_set_not_null, emit_alter_type_add_attribute, emit_alter_type_add_value,
    emit_alter_type_alter_attribute_type, emit_alter_type_drop_attribute,
    emit_alter_type_rename_value, emit_comment_on_type, emit_create_type, emit_drop_type,
    emit_drop_type_cascade, rename_value_sql,
};
use crate::plan::type_dependents::{
    cascade_text, enumerate_type_dependents, render_cascade_destruction, type_dependents,
};
use crate::text::{as_deref, dup_opt_text, opt_text};
use vstd::prelude::*;
use vstd::string::*;

verus! {

/// Whether a type is a domain.
fn is_domain(kind: &UserTypeKind) -> (r: bool)
    ensures
        r == kind is Domain,
{
    match kind {
        UserTypeKind::Domain { .. } => true,
        _ => false,
    }
}

/// Steps followed by the step for a type's comment, where it has one.
pub open spec fn with_type_comment(steps: Seq<StepModel>, ut: UserType) -> Seq<StepModel> {
    match ut.comment {
        Some(c) => steps.push(
            safe_step(
                StepKind::CommentOnType,
                seq![ut.qname@],
                comment_on_type_sql(ut.qname, ut.kind is Domain, Some(c@)),
            ),
        ),
        None => steps,
    }
}

fn push_type_comment(ut: &UserType, out: &mut Vec<RawStep>)
    ensures
        models(final(out)@) == with_type_comment(models(old(out)@), *ut),
{
    match &ut.comment {
        Some(c) => {
            push_safe(
                out,
                StepKind::CommentOnType,
                one_target(&ut.qname),
                emit_comment_on_type(&ut.qname, is_domain(&ut.kind), Some(c.as_str())),
            );
        },
        None => {},
    }
}

/// The reason for replacing a type: it names everything that the cascade
/// destroys.
pub open spec fn cascade_reason(
    reason: Option<Seq<char>>,
    q: QualifiedName,
    target: Catalog,
) -> Option<Seq<char>> {
    match reason {
        Some(base) => Some(base + cascade_text(q@, type_dependents(q@, target))),
        None => None,
    }
}

fn enrich_reason(
    reason: Option<String>,
    q: &QualifiedName,
    target: &Catalog,
) -> (enriched: Option<String>)
    ensures
        opt_text(enriched) == cascade_reason(opt_text(reason), *q, *target),
{
    match reason {
        Some(base) => {
            let dependents = enumerate_type_dependents(q, target);
            let suffix = render_cascade_destruction(q, &dependents);
            let mut out = base;
            out.append(suffix.as_str());
            Some(out)
        },
        None => None,
    }
}

/// Whether the first type of that name in a list is a domain; nothing where
/// there is none.
pub open spec fn first_is_domain(list: Seq<UserType>, q: QualifiedName) -> Option<bool>
    decreases list.len(),
{
    if list.len() == 0 {
        None
    } else if list[0].qname@ == q@ {
        Some(list[0].kind is Domain)
    } else {
        first_is_domain(list.drop_first(), q)
    }
}

fn find_is_domain(list: &Vec<UserType>, q: &QualifiedName) -> (r: Option<bool>)
    ensures
        r == first_is_domain(list@, *q),
{
    let mut i: usize = 0;
    assert(list@.skip(0) =~= list@);
    while i < list.len()
        invariant
            i <= list@.len(),
            first_is_domain(list@, *q) == first_is_domain(list@.skip(i as int), *q),
        decreases list@.len() - i,
    {
        if list[i].qname.same(q) {
            return Some(is_domain(&list[i].kind));
        }
        assert(list@.skip(i as int).drop_first() =~= list@.skip(i + 1));
        i = i + 1;
    }
    assert(list@.skip(i as int).len() == 0);
    None
}

/// Whether the name is known to be a domain's: the desired catalog is asked
/// first, then the live one.
pub open spec fn names_domain(q: QualifiedName, source: Catalog, target: Catalog) -> bool {
    match first_is_domain(source.types@, q) {
        Some(b) => b,
        None => match first_is_domain(target.types@, q) {
            Some(b) => b,
            None => false,
        },
    }
}

/// The steps for a change of a type.
///
/// Where a type is replaced, both halves need the approval: the new type is
/// created only after the cascade has removed what depended on the old one.
#[verifier::opaque]
pub open spec fn user_type_steps(
    utc: UserTypeChange,
    destructive: bool,
    reason: Option<Seq<char>>,
    source: Catalog,
    target: Catalog,
) -> Seq<StepModel> {
    match utc {
        UserTypeChange::Create(ut) => with_type_comment(
            seq![safe_step(StepKind::CreateType, seq![ut.qname@], create_type_sql(ut))],
            ut,
        ),
        UserTypeChange::Drop(q) => seq![
            gated_step(StepKind::DropType, destructive, reason, seq![q@], drop_type_sql(q)),
        ],
        UserTypeChange::ReplaceWithCascade { source: to, catalog: from } => {
            let enriched = cascade_reason(reason, from.qname, target);
            with_type_comment(
                seq![
                    gated_step(
                        StepKind::DropType,
                        destructive,
                        enriched,
                        seq![from.qname@],
                        drop_type_cascade_sql(from.qname),
                    ),
                    gated_step(
                        StepKind::CreateType,
                        destructive,
                        enriched,
                        seq![to.qname@],
                        create_type_sql(to),
                    ),
                ],
                to,
            )
        },
        UserTypeChange::EnumAddValue { qname, value, before, after } => seq![
            safe_step(
                StepKind::AlterTypeAddValue,
                seq![qname@],
                add_value_sql(qname, value@, opt_text(before), opt_text(after)),
            ),
        ],
        UserTypeChange::EnumRenameValue { qname, from, to } => seq![
            safe_step(
                StepKind::AlterTypeRenameValue,
                seq![qname@],
                rename_value_sql(qname, from@, to@),
            ),
        ],
        UserTypeChange::DomainAddCheck { qname, constraint } => seq![
            safe_step(
                StepKind::AlterDomainAddConstraint,
                seq![qname@],
                domain_add_check_sql(qname, constraint),
            ),
        ],
        UserTypeChange::DomainDropCheck { qname, name } => seq![
            gated_step(
                StepKind::AlterDomainDropConstraint,
                destructive,
                reason,
                seq![qname@],
                domain_drop_check_sql(qname, name),
            ),
        ],
        UserTypeChange::DomainSetDefault { qname, default } => seq![
            safe_step(
                StepKind::AlterDomainSetDefault,
                seq![qname@],
                domain_default_sql(qname, default),
            ),
        ],
        UserTypeChange::DomainSetNotNull { qname, not_null } => seq![
            safe_step(
                StepKind::AlterDomainSetNotNull,
                seq![qname@],
                domain_not_null_sql(qname, not_null),
            ),
        ],
        UserTypeChange::CompositeAddAttribute { qname, attribute } => seq![
            safe_step(
                StepKind::AlterTypeAddAttribute,
                seq![qname@],
                add_attribute_sql(qname, attribute),
            ),
        ],
        UserTypeChange::CompositeDropAttribute { qname, name } => seq![
            gated_step(
                StepKind::AlterTypeDropAttribute,
                destructive,
                reason,
                seq![qname@],
                drop_attribute_sql(qname, name),
            ),
        ],
        UserTypeChange::CompositeAlterAttributeType { qname, attribute, new_type } => seq![
            gated_step(
                StepKind::AlterTypeAlterAttributeType,
                destructive,
                reason,
                seq![qname@],
                alter_attribute_type_sql(qname, attribute, new_type),
            ),
        ],
        UserTypeChange::SetComment { qname, comment } => seq![
            safe_step(
                StepKind::CommentOnType,
                seq![qname@],
                comment_on_type_sql(qname, names_domain(qname, source, target), opt_text(comment)),
            ),
        ],
    }
}

/// Emits the steps for a change of a type.
pub fn emit(
    utc: UserTypeChange,
    destructive: bool,
    destructive_reason: Option<String>,
    ctx: &Ctx,
    out: &mut Vec<RawStep>,
)
    ensures
        models(final(out)@) == models(old(out)@) + user_type_steps(
            utc,
            destructive,
            opt_text(destructive_reason),
            *ctx.source,
            *ctx.target,
        ),
{
    let ghost before = models(out@);
    match &utc {
        UserTypeChange::Create(ut) => {
            push_safe(out, StepKind::CreateType, one_target(&ut.qname), emit_create_type(ut));
            push_type_comment(ut, out);
        },
        UserTypeChange::Drop(q) => {
            push_gated(
                out,
                StepKind::DropType,
                destructive,
                destructive_reason,
                one_target(q),
                emit_drop_type(q),
            );
        },
        UserTypeChange::ReplaceWithCascade { source: to, catalog: from } => {
            let enriched = enrich_reason(destructive_reason, &from.qname, ctx.target);
            let again = dup_opt_text(&enriched);
            push_gated(
                out,
                StepKind::DropType,
                destructive,
                enriched,
                one_target(&from.qname),
                emit_drop_type_cascade(&from.qname),
            );
            push_gated(
                out,
                StepKind::CreateType,
                destructive,
                again,
                one_target(&to.qname),
                emit_create_type(to),
            );
            push_type_comment(to, out);
        },
        UserTypeChange::EnumAddValue { qname, value, before: b, after } => {
            push_safe(
                out,
                StepKind::AlterTypeAddValue,
                one_target(qname),
                emit_alter_type_add_value(qname, value.as_str(), as_deref(b), as_deref(after)),
            );
        },
        UserTypeChange::EnumRenameValue { qname, from, to } => {
            push_safe(
                out,
                StepKind::AlterTypeRenameValue,
                one_target(qname),
                emit_alter_type_rename_value(qname, from.as_str(), to.as_str()),
            );
        },
        UserTypeChange::DomainAddCheck { qname, constraint } => {
            push_safe(
                out,
                StepKind::AlterDomainAddConstraint,
                one_target(qname),
                emit_alter_domain_add_check(qname, constraint),
            );
        },
        UserTypeChange::DomainDropCheck { qname, name } => {
            push_gated(
                out,
                StepKind::AlterDomainDropConstraint,
                destructive,
                destructive_reason,
                one_target(qname),
                emit_alter_domain_drop_check(qname, name),
            );
        },
        UserTypeChange::DomainSetDefault { qname, default } => {
            push_safe(
                out,
                StepKind::AlterDomainSetDefault,
                one_target(qname),
                emit_alter_domain_set_default(qname, default),
            );
        },
        UserTypeChange::DomainSetNotNull { qname, not_null } => {
            push_safe(
                out,
                StepKind::AlterDomainSetNotNull,
                one_target(qname),
                emit_alter_domain_set_not_null(qname, *not_null),
            );
        },
        UserTypeChange::CompositeAddAttribute { qname, attribute } => {
            push_safe(
                out,
                StepKind::AlterTypeAddAttribute,
                one_target(qname),
                emit_alter_type_add_attribute(qname, attribute),
            );
        },
        UserTypeChange::CompositeDropAttribute { qname, name } => {
            push_gated(
                out,
                StepKind::AlterTypeDropAttribute,
                destructive,
                destructive_reason,
                one_target(qname),
                emit_alter_type_drop_attribute(qname, name),
            );
        },
        UserTypeChange::CompositeAlterAttributeType { qname, attribute, new_type } => {
            push_gated(
                out,
                StepKind::AlterTypeAlterAttributeType,
                destructive,
                destructive_reason,
                one_target(qname),
                emit_alter_type_alter_attribute_type(qname, attribute, new_type),
            );
        },
        UserTypeChange::SetComment { qname, comment } => {
            let domain = match find_is_domain(&ctx.source.types, qname) {
                Some(b) => b,
                None => match find_is_domain(&ctx.target.types, qname) {
                    Some(b) => b,
                    None => false,
                },
            };
            push_safe(
                out,
                StepKind::CommentOnType,
                one_target(qname),
                emit_comment_on_type(qname, domain, as_deref(comment)),
            );
        },
    }
    proof {
        reveal(user_type_steps);
    }
    assert(models(out@) =~= before + user_type_steps(
        utc,
        destructive,
        opt_text(destructive_reason),
        *ctx.source,
        *ctx.target,
    ));
}

} // verus!
