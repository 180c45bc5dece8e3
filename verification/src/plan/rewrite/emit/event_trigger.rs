//! Steps for event triggers.

use crate::diff::change::EventTriggerChange;
use crate::identifier::{name_sql, Identifier, QnameModel, QualifiedName};
use crate::ir::trigger::{EventTrigger, EventTriggerEnabled};
use crate::model::{models, Duplicate};
use crate::plan::raw_step::{
    gated_step, one_target, push_gated, push_safe, safe_step, RawStep, StepKind, StepModel,
};
use crate::plan::rewrite::types::{literals, render_literals};
use crate::text::{
    append_sql, as_deref, finish_comment, join, joined, opt_str, opt_text, prefixed, with_comment,
    ToSql,
};
use vstd::prelude::*;
use vstd::string::*;

verus! {

/// Event triggers live outside of schemas; their targets are in a schema
/// `pg_event_trigger` that stands for that.
pub open spec fn event_trigger_name(name: Seq<char>) -> QnameModel {
    QnameModel { schema: "pg_event_trigger"@, name }
}

/// The target of a step on an event trigger.
fn event_trigger_target(name: &Identifier) -> (q: QualifiedName)
    ensures
        q@ == event_trigger_name(name@),
{
    QualifiedName::new(Identifier::pg_event_trigger(), name.duplicate())
}

/// `CREATE EVENT TRIGGER name ON event [WHEN TAG IN (...)] EXECUTE FUNCTION f();`
pub open spec fn create_text(et: EventTrigger) -> Seq<char> {
    let a = "CREATE EVENT TRIGGER "@ + name_sql(et.name@) + " ON "@ + et.event.keyword();
    let b = if et.tag_filter@.len() == 0 {
        a
    } else {
        a + " WHEN TAG IN ("@ + joined(literals(et.tag_filter@), ", "@) + ")"@
    };
    b + " EXECUTE FUNCTION "@ + et.function@.sql() + "();"@
}

/// `CREATE EVENT TRIGGER name ON event [WHEN TAG IN (...)] EXECUTE FUNCTION f();`
pub fn create_sql(et: &EventTrigger) -> (sql: String)
    ensures
        sql@ == create_text(*et),
{
    let mut out = prefixed("CREATE EVENT TRIGGER ", &et.name);
    out.append(" ON ");
    out.append(et.event.sql());
    if et.tag_filter.len() > 0 {
        out.append(" WHEN TAG IN (");
        let tags = join(&render_literals(&et.tag_filter), ", ");
        out.append(tags.as_str());
        out.append(")");
    }
    out.append(" EXECUTE FUNCTION ");
    append_sql(&mut out, &et.function);
    out.append("();");
    out
}

/// `DROP EVENT TRIGGER name;`
pub open spec fn drop_text(name: Identifier) -> Seq<char> {
    "DROP EVENT TRIGGER "@ + name_sql(name@) + ";"@
}

/// `DROP EVENT TRIGGER name;`
pub fn drop_sql(name: &Identifier) -> (sql: String)
    ensures
        sql@ == drop_text(*name),
{
    let mut out = prefixed("DROP EVENT TRIGGER ", name);
    out.append(";");
    out
}

/// `ALTER EVENT TRIGGER name ENABLE;` and its variants.
pub open spec fn enable_text(name: Identifier, enabled: EventTriggerEnabled) -> Seq<char> {
    "ALTER EVENT TRIGGER "@ + name_sql(name@) + " "@ + enabled.clause() + ";"@
}

/// `ALTER EVENT TRIGGER name ENABLE;` and its variants.
pub fn alter_enable_sql(name: &Identifier, enabled: EventTriggerEnabled) -> (sql: String)
    ensures
        sql@ == enable_text(*name, enabled),
{
    let mut out = prefixed("ALTER EVENT TRIGGER ", name);
    out.append(" ");
    out.append(enabled.alter_clause());
    out.append(";");
    out
}

/// `ALTER EVENT TRIGGER name OWNER TO owner;`
pub open spec fn owner_text(name: Identifier, owner: Identifier) -> Seq<char> {
    "ALTER EVENT TRIGGER "@ + name_sql(name@) + " OWNER TO "@ + name_sql(owner@) + ";"@
}

/// `ALTER EVENT TRIGGER name OWNER TO owner;`
pub fn alter_owner_sql(name: &Identifier, owner: &Identifier) -> (sql: String)
    ensures
        sql@ == owner_text(*name, *owner),
{
    let mut out = prefixed("ALTER EVENT TRIGGER ", name);
    out.append(" OWNER TO ");
    append_sql(&mut out, owner);
    out.append(";");
    out
}

/// `COMMENT ON EVENT TRIGGER name IS ...;`
pub open spec fn comment_text(name: Identifier, comment: Option<Seq<char>>) -> Seq<char> {
    with_comment("COMMENT ON EVENT TRIGGER "@ + name_sql(name@), comment)
}

/// `COMMENT ON EVENT TRIGGER name IS '...';` or `IS NULL;`
pub fn comment_sql(name: &Identifier, comment: Option<&str>) -> (sql: String)
    ensures
        sql@ == comment_text(*name, opt_str(comment)),
{
    finish_comment(prefixed("COMMENT ON EVENT TRIGGER ", name), comment)
}

/// The steps that create an event trigger. A new one is enabled, belongs to
/// the current role and has no comment; where the desired state differs,
/// further steps follow.
pub open spec fn create_steps(
    et: EventTrigger,
    destructive: bool,
    reason: Option<Seq<char>>,
) -> Seq<StepModel> {
    let target = seq![event_trigger_name(et.name@)];
    let a = seq![
        gated_step(StepKind::CreateEventTrigger, destructive, reason, target, create_text(et)),
    ];
    let b = if et.enabled is Enabled {
        a
    } else {
        a.push(
            safe_step(
                StepKind::AlterEventTriggerEnable,
                target,
                enable_text(et.name, et.enabled),
            ),
        )
    };
    let c = match et.owner {
        Some(owner) => b.push(
            safe_step(StepKind::AlterEventTriggerOwner, target, owner_text(et.name, owner)),
        ),
        None => b,
    };
    match et.comment {
        Some(comment) => c.push(
            safe_step(
                StepKind::CommentOnEventTrigger,
                target,
                comment_text(et.name, Some(comment@)),
            ),
        ),
        None => c,
    }
}

fn emit_create(
    et: &EventTrigger,
    destructive: bool,
    destructive_reason: Option<String>,
    out: &mut Vec<RawStep>,
)
    ensures
        models(final(out)@) == models(old(out)@) + create_steps(
            *et,
            destructive,
            opt_text(destructive_reason),
        ),
{
    let ghost before = models(out@);
    let target = event_trigger_target(&et.name);
    push_gated(
        out,
        StepKind::CreateEventTrigger,
        destructive,
        destructive_reason,
        one_target(&target),
        create_sql(et),
    );
    if et.enabled != EventTriggerEnabled::Enabled {
        push_safe(
            out,
            StepKind::AlterEventTriggerEnable,
            one_target(&target),
            alter_enable_sql(&et.name, et.enabled),
        );
    }
    match &et.owner {
        Some(owner) => {
            push_safe(
                out,
                StepKind::AlterEventTriggerOwner,
                one_target(&target),
                alter_owner_sql(&et.name, owner),
            );
        },
        None => {},
    }
    match &et.comment {
        Some(comment) => {
            push_safe(
                out,
                StepKind::CommentOnEventTrigger,
                one_target(&target),
                comment_sql(&et.name, Some(comment.as_str())),
            );
        },
        None => {},
    }
    assert(models(out@) =~= before + create_steps(
        *et,
        destructive,
        opt_text(destructive_reason),
    ));
}

/// The steps for a change of an event trigger.
#[verifier::opaque]
pub open spec fn event_trigger_steps(
    etc: EventTriggerChange,
    destructive: bool,
    reason: Option<Seq<char>>,
) -> Seq<StepModel> {
    match etc {
        EventTriggerChange::Create(et) => create_steps(et, destructive, reason),
        EventTriggerChange::Replace { from, to } => seq![
            gated_step(
                StepKind::DropEventTrigger,
                destructive,
                reason,
                seq![event_trigger_name(from.name@)],
                drop_text(from.name),
            ),
        ] + create_steps(to, false, None),
        EventTriggerChange::Drop { name } => seq![
            gated_step(
                StepKind::DropEventTrigger,
                destructive,
                reason,
                seq![event_trigger_name(name@)],
                drop_text(name),
            ),
        ],
        EventTriggerChange::AlterEnable { name, enabled } => seq![
            safe_step(
                StepKind::AlterEventTriggerEnable,
                seq![event_trigger_name(name@)],
                enable_text(name, enabled),
            ),
        ],
        EventTriggerChange::AlterOwner { name, owner } => seq![
            safe_step(
                StepKind::AlterEventTriggerOwner,
                seq![event_trigger_name(name@)],
                owner_text(name, owner),
            ),
        ],
        EventTriggerChange::CommentOn { name, comment } => seq![
            safe_step(
                StepKind::CommentOnEventTrigger,
                seq![event_trigger_name(name@)],
                comment_text(name, opt_text(comment)),
            ),
        ],
    }
}

/// Emits the steps for a change of an event trigger.
pub fn emit(
    etc: EventTriggerChange,
    destructive: bool,
    destructive_reason: Option<String>,
    out: &mut Vec<RawStep>,
)
    ensures
        models(final(out)@) == models(old(out)@) + event_trigger_steps(
            etc,
            destructive,
            opt_text(destructive_reason),
        ),
{
    let ghost before = models(out@);
    match &etc {
        EventTriggerChange::Create(et) => {
            emit_create(et, destructive, destructive_reason, out);
        },
        EventTriggerChange::Replace { from, to } => {
            push_gated(
                out,
                StepKind::DropEventTrigger,
                destructive,
                destructive_reason,
                one_target(&event_trigger_target(&from.name)),
                drop_sql(&from.name),
            );
            emit_create(to, false, None, out);
        },
        EventTriggerChange::Drop { name } => {
            push_gated(
                out,
                StepKind::DropEventTrigger,
                destructive,
                destructive_reason,
                one_target(&event_trigger_target(name)),
                drop_sql(name),
            );
        },
        EventTriggerChange::AlterEnable { name, enabled } => {
            push_safe(
                out,
                StepKind::AlterEventTriggerEnable,
                one_target(&event_trigger_target(name)),
                alter_enable_sql(name, *enabled),
            );
        },
        EventTriggerChange::AlterOwner { name, owner } => {
            push_safe(
                out,
                StepKind::AlterEventTriggerOwner,
                one_target(&event_trigger_target(name)),
                alter_owner_sql(name, owner),
            );
        },
        EventTriggerChange::CommentOn { name, comment } => {
            push_safe(
                out,
                StepKind::CommentOnEventTrigger,
                one_target(&event_trigger_target(name)),
                comment_sql(name, as_deref(comment)),
            );
        },
    }
    proof {
        reveal(event_trigger_steps);
    }
    assert(models(out@) =~= before + event_trigger_steps(
        etc,
        destructive,
        opt_text(destructive_reason),
    ));
}

} // verus!
