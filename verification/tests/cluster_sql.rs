use pgevolve_plan::identifier::Identifier;
use pgevolve_plan::ir::role::{Role, RoleAttributes};
use pgevolve_plan::plan::cluster_rewrite::sql::{alter_role_attributes, comment_on_role, create_role, drop_role, grant_role_membership, revoke_role_membership};

fn id(s: &str) -> Identifier {
    Identifier::from_unquoted(s).unwrap()
}

fn default_role(name: &str) -> Role {
    Role {
        name: id(name),
        attributes: RoleAttributes::default(),
        member_of: vec![],
        comment: None,
    }
}

#[test]
fn create_role_default_attributes() {
    let role = default_role("app_user");
    let sql = create_role(&role);
    // PG default: INHERIT true, all others false.
    assert!(sql.starts_with("CREATE ROLE app_user WITH"), "got: {sql}");
    assert!(sql.contains("NOSUPERUSER"), "got: {sql}");
    assert!(sql.contains("NOCREATEDB"), "got: {sql}");
    assert!(sql.contains("NOCREATEROLE"), "got: {sql}");
    assert!(sql.contains("INHERIT"), "got: {sql}");
    assert!(!sql.contains("NOINHERIT"), "got: {sql}");
    assert!(sql.contains("NOLOGIN"), "got: {sql}");
    assert!(sql.contains("NOREPLICATION"), "got: {sql}");
    assert!(sql.contains("NOBYPASSRLS"), "got: {sql}");
    assert!(sql.ends_with(';'), "got: {sql}");
}

#[test]
fn create_role_with_membership() {
    let mut role = default_role("app_user");
    role.member_of = vec![id("readers"), id("writers")];
    let sql = create_role(&role);
    assert!(sql.contains("IN ROLE readers, writers"), "got: {sql}");
}

#[test]
fn alter_role_only_emits_changed_attrs() {
    let from = RoleAttributes::default();
    let to = RoleAttributes {
        login: true,
        createdb: true,
        ..RoleAttributes::default()
    };
    let sql = alter_role_attributes(&id("app_user"), &from, &to);
    // Only LOGIN and CREATEDB changed — no other tokens expected.
    assert!(sql.contains("LOGIN"), "got: {sql}");
    assert!(sql.contains("CREATEDB"), "got: {sql}");
    assert!(!sql.contains("SUPERUSER"), "got: {sql}");
    assert!(!sql.contains("INHERIT"), "got: {sql}");
    assert!(sql.starts_with("ALTER ROLE app_user WITH"), "got: {sql}");
}

#[test]
fn grant_revoke_membership() {
    let grant = grant_role_membership(&id("readers"), &id("bob"));
    assert_eq!(grant, "GRANT readers TO bob;");

    let revoke = revoke_role_membership(&id("readers"), &id("bob"));
    assert_eq!(revoke, "REVOKE readers FROM bob;");
}

#[test]
fn comment_quotes_apostrophes() {
    let sql = comment_on_role(&id("app_user"), Some("it's fine"));
    assert!(sql.contains("it''s fine"), "got: {sql}");
}

#[test]
fn drop_role_renders() {
    let sql = drop_role(&id("old_role"));
    assert_eq!(sql, "DROP ROLE old_role;");
}

#[test]
fn alter_role_connection_limit_back_to_unlimited() {
    let from = RoleAttributes {
        connection_limit: Some(10),
        ..RoleAttributes::default()
    };
    let to = RoleAttributes::default(); // connection_limit = None
    let sql = alter_role_attributes(&id("app_user"), &from, &to);
    assert!(sql.contains("CONNECTION LIMIT -1"), "got: {sql}");
}

#[test]
fn alter_role_valid_until_cleared() {
    let from = RoleAttributes {
        valid_until: Some("2030-01-01T00:00:00Z".into()),
        ..RoleAttributes::default()
    };
    let to = RoleAttributes::default(); // valid_until = None
    let sql = alter_role_attributes(&id("app_user"), &from, &to);
    assert!(sql.contains("VALID UNTIL 'infinity'"), "got: {sql}");
}

#[test]
fn comment_on_role_none_emits_is_null() {
    let sql = comment_on_role(&id("app_user"), None);
    assert_eq!(sql, "COMMENT ON ROLE app_user IS NULL;");
}

#[test]
fn alter_role_connection_limit_set() {
    let from = RoleAttributes::default();
    let to = RoleAttributes {
        connection_limit: Some(50),
        ..RoleAttributes::default()
    };
    let sql = alter_role_attributes(&id("app_user"), &from, &to);
    assert!(sql.contains("CONNECTION LIMIT 50"), "got: {sql}");
}
