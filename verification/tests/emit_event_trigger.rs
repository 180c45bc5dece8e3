use pgevolve_plan::diff::change::EventTriggerChange;
use pgevolve_plan::identifier::{Identifier, QualifiedName};
use pgevolve_plan::ir::trigger::{EventTrigger, EventTriggerEnabled, EventTriggerEvent};
use pgevolve_plan::plan::raw_step::StepKind;
use pgevolve_plan::plan::rewrite::emit::event_trigger::{alter_enable_sql, alter_owner_sql, comment_sql, create_sql, drop_sql, emit};

fn id(s: &str) -> Identifier {
    Identifier::from_unquoted(s).unwrap()
}

fn make_et() -> EventTrigger {
    EventTrigger {
        name: id("audit_ddl"),
        event: EventTriggerEvent::DdlCommandStart,
        tag_filter: vec![],
        function: {
            QualifiedName::new(id("public"), id("audit_fn"))
        },
        enabled: EventTriggerEnabled::Enabled,
        owner: None,
        comment: None,
    }
}

// --- create_sql ---

#[test]
fn create_sql_simple_no_tags() {
    let et = make_et();
    let sql = create_sql(&et);
    assert_eq!(
        sql,
        "CREATE EVENT TRIGGER audit_ddl ON ddl_command_start EXECUTE FUNCTION public.audit_fn();"
    );
}

#[test]
fn create_sql_with_tag_filter() {
    let mut et = make_et();
    et.tag_filter = vec!["CREATE TABLE".to_string(), "ALTER TABLE".to_string()];
    let sql = create_sql(&et);
    assert_eq!(
        sql,
        "CREATE EVENT TRIGGER audit_ddl ON ddl_command_start WHEN TAG IN ('CREATE TABLE', 'ALTER TABLE') EXECUTE FUNCTION public.audit_fn();"
    );
}

#[test]
fn create_sql_tag_with_embedded_single_quote() {
    let mut et = make_et();
    et.tag_filter = vec!["O'Brien".to_string()];
    let sql = create_sql(&et);
    assert!(sql.contains("'O''Brien'"), "got: {sql}");
}

// --- drop_sql ---

#[test]
fn event_trigger_drop_sql_renders_correctly() {
    let sql = drop_sql(&id("audit_ddl"));
    assert_eq!(sql, "DROP EVENT TRIGGER audit_ddl;");
}

// --- alter_enable_sql ---

#[test]
fn alter_enable_all_states() {
    for (state, expected) in [
        (
            EventTriggerEnabled::Enabled,
            "ALTER EVENT TRIGGER audit_ddl ENABLE;",
        ),
        (
            EventTriggerEnabled::Disabled,
            "ALTER EVENT TRIGGER audit_ddl DISABLE;",
        ),
        (
            EventTriggerEnabled::Replica,
            "ALTER EVENT TRIGGER audit_ddl ENABLE REPLICA;",
        ),
        (
            EventTriggerEnabled::Always,
            "ALTER EVENT TRIGGER audit_ddl ENABLE ALWAYS;",
        ),
    ] {
        let sql = alter_enable_sql(&id("audit_ddl"), state);
        assert_eq!(sql, expected, "state={state:?}");
    }
}

// --- alter_owner_sql ---

#[test]
fn event_trigger_alter_owner_renders_correctly() {
    let sql = alter_owner_sql(&id("audit_ddl"), &id("myuser"));
    assert_eq!(sql, "ALTER EVENT TRIGGER audit_ddl OWNER TO myuser;");
}

// --- comment_sql ---

#[test]
fn event_trigger_comment_sql_set() {
    let sql = comment_sql(&id("audit_ddl"), Some("tracks DDL changes"));
    assert_eq!(
        sql,
        "COMMENT ON EVENT TRIGGER audit_ddl IS 'tracks DDL changes';"
    );
}

#[test]
fn event_trigger_comment_sql_clear_is_null() {
    let sql = comment_sql(&id("audit_ddl"), None);
    assert_eq!(sql, "COMMENT ON EVENT TRIGGER audit_ddl IS NULL;");
}

#[test]
fn event_trigger_comment_sql_escapes_single_quotes() {
    let sql = comment_sql(&id("audit_ddl"), Some("O'Brien's trigger"));
    assert!(sql.contains("'O''Brien''s trigger'"), "got: {sql}");
}

// --- emit() integration ---

#[test]
fn event_trigger_emit_create_simple_produces_one_step() {
    let et = make_et();
    let mut out = Vec::new();
    emit(EventTriggerChange::Create(et), false, None, &mut out);
    assert_eq!(out.len(), 1);
    assert_eq!(out[0].kind, StepKind::CreateEventTrigger);
    assert!(out[0].sql.contains("CREATE EVENT TRIGGER"));
    assert!(!out[0].destructive);
}

#[test]
fn emit_create_with_non_default_enabled_produces_two_steps() {
    let mut et = make_et();
    et.enabled = EventTriggerEnabled::Disabled;
    let mut out = Vec::new();
    emit(EventTriggerChange::Create(et), false, None, &mut out);
    assert_eq!(out.len(), 2);
    assert_eq!(out[0].kind, StepKind::CreateEventTrigger);
    assert_eq!(out[1].kind, StepKind::AlterEventTriggerEnable);
    assert!(out[1].sql.contains("DISABLE"));
}

#[test]
fn emit_create_with_owner_produces_two_steps() {
    let mut et = make_et();
    et.owner = Some(id("myuser"));
    let mut out = Vec::new();
    emit(EventTriggerChange::Create(et), false, None, &mut out);
    assert_eq!(out.len(), 2);
    assert_eq!(out[0].kind, StepKind::CreateEventTrigger);
    assert_eq!(out[1].kind, StepKind::AlterEventTriggerOwner);
    assert!(out[1].sql.contains("OWNER TO"));
}

#[test]
fn event_trigger_emit_create_with_comment_produces_two_steps() {
    let mut et = make_et();
    et.comment = Some("tracks DDL".to_string());
    let mut out = Vec::new();
    emit(EventTriggerChange::Create(et), false, None, &mut out);
    assert_eq!(out.len(), 2);
    assert_eq!(out[0].kind, StepKind::CreateEventTrigger);
    assert_eq!(out[1].kind, StepKind::CommentOnEventTrigger);
    assert!(out[1].sql.contains("tracks DDL"));
}

#[test]
fn emit_create_with_all_followups_produces_four_steps() {
    let mut et = make_et();
    et.enabled = EventTriggerEnabled::Replica;
    et.owner = Some(id("admin"));
    et.comment = Some("full test".to_string());
    let mut out = Vec::new();
    emit(EventTriggerChange::Create(et), false, None, &mut out);
    assert_eq!(out.len(), 4);
    assert_eq!(out[0].kind, StepKind::CreateEventTrigger);
    assert_eq!(out[1].kind, StepKind::AlterEventTriggerEnable);
    assert_eq!(out[2].kind, StepKind::AlterEventTriggerOwner);
    assert_eq!(out[3].kind, StepKind::CommentOnEventTrigger);
}

#[test]
fn emit_drop_produces_one_destructive_step() {
    let mut out = Vec::new();
    emit(
        EventTriggerChange::Drop {
            name: id("audit_ddl"),
        },
        true,
        Some("removing event trigger".to_string()),
        &mut out,
    );
    assert_eq!(out.len(), 1);
    assert_eq!(out[0].kind, StepKind::DropEventTrigger);
    assert!(out[0].destructive);
    assert!(out[0].sql.contains("DROP EVENT TRIGGER"));
}

#[test]
fn event_trigger_emit_replace_first_step_is_drop() {
    let from = make_et();
    let mut to = make_et();
    to.event = EventTriggerEvent::DdlCommandEnd;
    let mut out = Vec::new();
    emit(
        EventTriggerChange::Replace { from, to },
        true,
        None,
        &mut out,
    );
    assert!(
        out.len() >= 2,
        "expected at least 2 steps, got {}",
        out.len()
    );
    assert_eq!(out[0].kind, StepKind::DropEventTrigger);
    assert!(out[0].destructive);
    assert_eq!(out[1].kind, StepKind::CreateEventTrigger);
    assert!(!out[1].destructive);
}

#[test]
fn emit_alter_enable_produces_one_step() {
    let mut out = Vec::new();
    emit(
        EventTriggerChange::AlterEnable {
            name: id("audit_ddl"),
            enabled: EventTriggerEnabled::Always,
        },
        false,
        None,
        &mut out,
    );
    assert_eq!(out.len(), 1);
    assert_eq!(out[0].kind, StepKind::AlterEventTriggerEnable);
    assert!(out[0].sql.contains("ENABLE ALWAYS"));
}

#[test]
fn event_trigger_emit_alter_owner_produces_one_step() {
    let mut out = Vec::new();
    emit(
        EventTriggerChange::AlterOwner {
            name: id("audit_ddl"),
            owner: id("newrole"),
        },
        false,
        None,
        &mut out,
    );
    assert_eq!(out.len(), 1);
    assert_eq!(out[0].kind, StepKind::AlterEventTriggerOwner);
    assert!(out[0].sql.contains("OWNER TO newrole"));
}

#[test]
fn event_trigger_emit_comment_on_set_produces_one_step() {
    let mut out = Vec::new();
    emit(
        EventTriggerChange::CommentOn {
            name: id("audit_ddl"),
            comment: Some("my comment".to_string()),
        },
        false,
        None,
        &mut out,
    );
    assert_eq!(out.len(), 1);
    assert_eq!(out[0].kind, StepKind::CommentOnEventTrigger);
    assert!(out[0].sql.contains("my comment"));
}

#[test]
fn event_trigger_emit_comment_on_none_renders_is_null() {
    let mut out = Vec::new();
    emit(
        EventTriggerChange::CommentOn {
            name: id("audit_ddl"),
            comment: None,
        },
        false,
        None,
        &mut out,
    );
    assert_eq!(out.len(), 1);
    assert_eq!(out[0].kind, StepKind::CommentOnEventTrigger);
    assert!(out[0].sql.contains("IS NULL"));
}
