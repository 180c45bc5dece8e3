use pgevolve_plan::identifier::Identifier;
use pgevolve_plan::ir::extension::Extension;
use pgevolve_plan::plan::rewrite::extensions::{alter_extension_update, comment_on_extension, create_extension, drop_extension};

fn id(s: &str) -> Identifier {
    Identifier::from_unquoted(s).unwrap()
}

fn ext_with(name: &str, schema: Option<&str>, version: Option<&str>) -> Extension {
    Extension {
        name: id(name),
        schema: schema.map(id),
        version: version.map(str::to_string),
        comment: None,
    }
}

#[test]
fn create_bare() {
    assert_eq!(
        create_extension(&ext_with("pgcrypto", None, None)),
        "CREATE EXTENSION IF NOT EXISTS pgcrypto;"
    );
}

#[test]
fn create_with_schema_and_version() {
    assert_eq!(
        create_extension(&ext_with("pg_trgm", Some("app"), Some("1.6"))),
        "CREATE EXTENSION IF NOT EXISTS pg_trgm WITH SCHEMA app VERSION '1.6';"
    );
}

#[test]
fn drop_renders_cascade() {
    assert_eq!(
        drop_extension(&id("pgcrypto")),
        "DROP EXTENSION pgcrypto CASCADE;"
    );
}

#[test]
fn alter_update_to_version() {
    assert_eq!(
        alter_extension_update(&id("pgcrypto"), "1.4"),
        "ALTER EXTENSION pgcrypto UPDATE TO '1.4';"
    );
}

#[test]
fn comment_set_and_clear() {
    assert_eq!(
        comment_on_extension(&id("pgcrypto"), Some("crypto helpers")),
        "COMMENT ON EXTENSION pgcrypto IS 'crypto helpers';"
    );
    assert_eq!(
        comment_on_extension(&id("pgcrypto"), None),
        "COMMENT ON EXTENSION pgcrypto IS NULL;"
    );
}

#[test]
fn escape_single_quote() {
    assert_eq!(
        comment_on_extension(&id("pgcrypto"), Some("it's fine")),
        "COMMENT ON EXTENSION pgcrypto IS 'it''s fine';"
    );
}
