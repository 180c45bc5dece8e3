//! What the statements that define an object say: each property of the object
//! adds its own clause, and nothing else depends on it.

use crate::identifier::name_sql;
use crate::ir::collation::{Collation, CollationProvider};
use crate::ir::column_type::type_sql;
use crate::ir::constraint::{Constraint, ConstraintKind, Deferrable, ReferentialAction};
use crate::ir::extension::Extension;
use crate::ir::function::{Function, FunctionArg, FunctionLanguage, Procedure, ReturnType};
use crate::ir::index::{Index, IndexParent};
use crate::ir::policy::{Policy, PolicyCommand};
use crate::ir::replication::{
    Publication, PublicationScope, PublishKinds, Subscription, SubscriptionOptions,
};
use crate::ir::routine_objects::{Aggregate, Cast, CastMethod};
use crate::ir::sequence::Sequence;
use crate::ir::statistic::Statistic;
use crate::ir::table::{Column, Compression, Identity, Table};
use crate::ir::text_search::{TsConfiguration, TsDictionary};
use crate::ir::trigger::{EventTrigger, EventTriggerEvent, Trigger};
use crate::ir::view::{CheckOption, MaterializedView, ViewDefinition};
use crate::plan::rewrite::collations::create_collation_sql;
use crate::plan::rewrite::emit;
use crate::plan::rewrite::extensions::create_extension_sql;
use crate::plan::rewrite::functions::{
    arg_sql, create_function_sql, create_procedure_sql, return_sql,
};
use crate::plan::rewrite::policies::{alter_policy_sql, create_policy_sql};
use crate::plan::rewrite::partitions::{bounds_sql, strategy_sql};
use crate::plan::rewrite::publications::{create_publication_sql, publish_list};
use crate::plan::rewrite::reloptions::{index_options, mv_options, table_options};
use crate::plan::rewrite::sql::{
    column_sql, constraint_sql, create_index_sql, create_sequence_sql, create_table_sql,
    method_sql,
};
use crate::plan::rewrite::statistics::create_statistic_sql;
use crate::plan::rewrite::subscriptions::{create_subscription_sql, subscription_options};
use crate::plan::rewrite::triggers::create_trigger_sql;
use crate::plan::rewrite::types::literals;
use crate::plan::rewrite::views::{create_mv_sql, create_view_sql};
use crate::text::{decimal, doubled, joined, sqls, SqlText};
use vstd::prelude::*;

verus! {

/// The text where the condition holds, and nothing otherwise.
pub open spec fn when(on: bool, text: Seq<char>) -> Seq<char> {
    if on {
        text
    } else {
        Seq::empty()
    }
}

/// Adding nothing changes nothing, and texts can be added in any grouping.
proof fn lemma_texts_add()
    ensures
        forall|s: Seq<char>| #[trigger] (s + Seq::<char>::empty()) == s,
        forall|a: Seq<char>, b: Seq<char>, c: Seq<char>| #[trigger] (a + (b + c)) == a + b + c,
{
    assert forall|s: Seq<char>| #[trigger] (s + Seq::<char>::empty()) == s by {
        assert(s + Seq::<char>::empty() =~= s);
    }
    assert forall|a: Seq<char>, b: Seq<char>, c: Seq<char>| #[trigger] (a + (b + c)) == a + b
        + c by {
        assert(a + (b + c) =~= a + b + c);
    }
}

/// A function is defined by its name, arguments, result, language, properties
/// and body; each property has a clause of its own, in a fixed order, and the
/// server's defaults have none.
pub proof fn law_functions_are_defined_clause_by_clause(f: Function)
    ensures
        create_function_sql(f) == "CREATE OR REPLACE FUNCTION "@ + f.qname@.sql() + "("@ + joined(
            sqls(f.args@),
            ", "@,
        ) + ")"@ + "\n    RETURNS "@ + return_sql(f.return_type) + "\n    LANGUAGE "@ + (
        match f.language {
            FunctionLanguage::Sql => "sql"@,
            FunctionLanguage::PlPgSql => "plpgsql"@,
        }) + when(f.volatility is Immutable, " IMMUTABLE"@) + when(
            f.volatility is Stable,
            " STABLE"@,
        ) + when(f.strict, " STRICT"@) + when(f.security is Definer, " SECURITY DEFINER"@) + when(
            f.parallel is Safe,
            " PARALLEL SAFE"@,
        ) + when(f.parallel is Restricted, " PARALLEL RESTRICTED"@) + when(
            f.leakproof,
            " LEAKPROOF"@,
        ) + (match f.cost {
            Some(n) => " COST "@ + n.text@,
            None => Seq::empty(),
        }) + (match f.rows {
            Some(n) => " ROWS "@ + n.text@,
            None => Seq::empty(),
        }) + "\nAS $pgevolve$"@ + f.body@ + "$pgevolve$;"@,
{
    lemma_texts_add();
}

/// A procedure is defined by its name, arguments, language, security and body.
pub proof fn law_procedures_are_defined_clause_by_clause(p: Procedure)
    ensures
        create_procedure_sql(p) =~= "CREATE OR REPLACE PROCEDURE "@ + p.qname@.sql() + "("@ + joined(
            sqls(p.args@),
            ", "@,
        ) + ")"@ + "\n    LANGUAGE "@ + (match p.language {
            FunctionLanguage::Sql => "sql"@,
            FunctionLanguage::PlPgSql => "plpgsql"@,
        }) + when(p.security is Definer, " SECURITY DEFINER"@) + "\nAS $pgevolve$"@ + p.body@
            + "$pgevolve$;"@,
{
}

/// An argument is its mode, where that is not the plain one, its name, where it
/// has one, its type, and its default, where it has one.
pub proof fn law_arguments_are_written_in_order(a: FunctionArg)
    ensures
        arg_sql(a) =~= when(a.mode is Out, "OUT "@) + when(a.mode is InOut, "INOUT "@) + when(
            a.mode is Variadic,
            "VARIADIC "@,
        ) + (match a.name {
            Some(name) => name_sql(name@) + " "@,
            None => Seq::empty(),
        }) + type_sql(a.ty) + (match a.default {
            Some(e) => " DEFAULT "@ + e@,
            None => Seq::empty(),
        }),
{
    reveal_strlit("");
    assert(""@ =~= Seq::<char>::empty());
}

/// A result is a type, a set of a type, a table of columns, or one of three
/// special results.
pub proof fn law_results_are_written_by_their_kind(rt: ReturnType)
    ensures
        match rt {
            ReturnType::Scalar { ty } => return_sql(rt) == type_sql(ty),
            ReturnType::SetOf { ty } => return_sql(rt) == "SETOF "@ + type_sql(ty),
            ReturnType::Table { columns } => return_sql(rt) == "TABLE("@ + joined(
                sqls(columns@),
                ", "@,
            ) + ")"@,
            ReturnType::Trigger => return_sql(rt) == "trigger"@,
            ReturnType::EventTrigger => return_sql(rt) == "event_trigger"@,
            ReturnType::Void => return_sql(rt) == "void"@,
        },
{
}

/// A collation is defined by its provider and its locale, which is written once
/// where both parts agree, and says so where it is not deterministic.
pub proof fn law_collations_are_defined_clause_by_clause(c: Collation)
    ensures
        create_collation_sql(c) =~= "CREATE COLLATION "@ + c.qname@.sql() + " (provider = "@ + (
        match c.provider {
            CollationProvider::Libc => "libc"@,
            CollationProvider::Icu => "icu"@,
            CollationProvider::Builtin => "builtin"@,
        }) + when(
            c.lc_collate@ == c.lc_ctype@,
            ", locale = '"@ + doubled(c.lc_collate@, '\'') + "'"@,
        ) + when(
            c.lc_collate@ != c.lc_ctype@,
            ", lc_collate = '"@ + doubled(c.lc_collate@, '\'') + "', lc_ctype = '"@ + doubled(
                c.lc_ctype@,
                '\'',
            ) + "'"@,
        ) + when(!c.deterministic, ", deterministic = false"@) + ");"@,
{
}

/// An extension is installed unless it is there, in its schema and at its
/// version, where they are given.
pub proof fn law_extensions_are_installed_clause_by_clause(e: Extension)
    ensures
        create_extension_sql(e) =~= "CREATE EXTENSION IF NOT EXISTS "@ + name_sql(e.name@) + (
        match e.schema {
            Some(schema) => " WITH SCHEMA "@ + name_sql(schema@),
            None => Seq::empty(),
        }) + (match e.version {
            Some(version) => " VERSION '"@ + doubled(version@, '\'') + "'"@,
            None => Seq::empty(),
        }) + ";"@,
{
}

/// An aggregate is defined by its state function and state type, its final
/// function and its initial state, where they are given.
pub proof fn law_aggregates_are_defined_clause_by_clause(a: Aggregate)
    ensures
        emit::aggregate::create_text(a) =~= "CREATE AGGREGATE "@ + a.qname@.sql() + (
        if a.arg_types@.len() == 0 {
            "(*)"@
        } else {
            "("@ + joined(sqls(a.arg_types@), ", "@) + ")"@
        }) + " (SFUNC = "@ + a.sfunc@.sql() + ", STYPE = "@ + type_sql(a.state_type) + (
        match a.finalfunc {
            Some(f) => ", FINALFUNC = "@ + f@.sql(),
            None => Seq::empty(),
        }) + (match a.initcond {
            Some(text) => ", INITCOND = '"@ + doubled(text@, '\'') + "'"@,
            None => Seq::empty(),
        }) + ");"@,
{
}

/// A cast is defined by the types it converts from and to, by its method, and by
/// where the server may apply it by itself.
pub proof fn law_casts_are_defined_clause_by_clause(c: Cast)
    ensures
        emit::cast::create_text(c) =~= "CREATE CAST ("@ + c.source@.sql() + " AS "@ + c.target@.sql()
            + ") "@ + (match c.method {
            CastMethod::Function { name, arg_types } => "WITH FUNCTION "@ + name@.sql() + "("@
                + joined(sqls(arg_types@), ", "@) + ")"@,
            CastMethod::Inout => "WITH INOUT"@,
            CastMethod::Binary => "WITHOUT FUNCTION"@,
        }) + when(c.context is Assignment, " AS ASSIGNMENT"@) + when(
            c.context is Implicit,
            " AS IMPLICIT"@,
        ) + ";"@,
{
    reveal_strlit("");
    assert(""@ =~= Seq::<char>::empty());
}

/// An event trigger is defined by its event, the tags it is limited to, where
/// there are any, and its function.
pub proof fn law_event_triggers_are_defined_clause_by_clause(t: EventTrigger)
    ensures
        emit::event_trigger::create_text(t) =~= "CREATE EVENT TRIGGER "@ + name_sql(t.name@)
            + " ON "@ + (match t.event {
            EventTriggerEvent::DdlCommandStart => "ddl_command_start"@,
            EventTriggerEvent::DdlCommandEnd => "ddl_command_end"@,
            EventTriggerEvent::SqlDrop => "sql_drop"@,
            EventTriggerEvent::TableRewrite => "table_rewrite"@,
        }) + when(
            t.tag_filter@.len() > 0,
            " WHEN TAG IN ("@ + joined(literals(t.tag_filter@), ", "@) + ")"@,
        ) + " EXECUTE FUNCTION "@ + t.function@.sql() + "();"@,
{
}

/// A text search dictionary is defined by its template and its options, and a
/// configuration by its parser.
pub proof fn law_text_search_is_defined_clause_by_clause(d: TsDictionary, c: TsConfiguration)
    ensures
        emit::ts_dictionary::create_text(d) =~= "CREATE TEXT SEARCH DICTIONARY "@ + d.qname@.sql()
            + " (TEMPLATE = "@ + d.template@.sql() + when(
            d.options@.len() > 0,
            ", "@ + joined(
                d.options@.map_values(
                    |o: (String, String)| o.0@ + " = '"@ + doubled(o.1@, '\'') + "'"@,
                ),
                ", "@,
            ),
        ) + ");"@,
        emit::ts_configuration::create_text(c) =~= "CREATE TEXT SEARCH CONFIGURATION "@
            + c.qname@.sql() + " (PARSER = "@ + c.parser@.sql() + ");"@,
{
    assert(emit::ts_dictionary::option_texts(d.options@) =~= d.options@.map_values(
        |o: (String, String)| o.0@ + " = '"@ + doubled(o.1@, '\'') + "'"@,
    ));
}

/// What a constraint says behind its name when it may be checked late.
pub open spec fn deferral(d: Deferrable) -> Seq<char> {
    when(d is InitiallyImmediate, " DEFERRABLE INITIALLY IMMEDIATE"@) + when(
        d is InitiallyDeferred,
        " DEFERRABLE INITIALLY DEFERRED"@,
    )
}

/// What a foreign key says of an action, where it is not the plain one.
pub open spec fn on_event(event: Seq<char>, a: ReferentialAction) -> Seq<char> {
    when(a is Restrict, event + "RESTRICT"@) + when(a is Cascade, event + "CASCADE"@) + when(
        a is SetNull,
        event + "SET NULL"@,
    ) + when(a is SetDefault, event + "SET DEFAULT"@)
}

/// A foreign key is defined by its own columns, the referenced table and its
/// columns, the way of matching, what happens on an update and on a deletion,
/// and when it is checked.
pub proof fn law_foreign_keys_are_defined_clause_by_clause(c: Constraint)
    requires
        c.kind is ForeignKey,
    ensures
        ({
            let fk = c.kind->ForeignKey_0;
            constraint_sql(c) == "CONSTRAINT "@ + name_sql(c.qname.name@) + " "@ + "FOREIGN KEY"@
                + " ("@ + joined(sqls(fk.columns@), ", "@) + ")"@ + " REFERENCES "@
                + fk.referenced_table@.sql() + " ("@ + joined(sqls(fk.referenced_columns@), ", "@)
                + ")"@ + when(fk.match_type is Full, " MATCH FULL"@) + on_event(
                " ON UPDATE "@,
                fk.on_update,
            ) + on_event(" ON DELETE "@, fk.on_delete) + deferral(c.deferrable)
        }),
{
    lemma_texts_add();
    reveal_strlit("");
    assert(""@ =~= Seq::<char>::empty());
}

/// A primary key or a unique constraint is defined by its columns and those it
/// only carries along, a check by its condition.
pub proof fn law_other_constraints_are_defined_clause_by_clause(c: Constraint)
    requires
        !(c.kind is ForeignKey),
    ensures
        ({
            let head = "CONSTRAINT "@ + name_sql(c.qname.name@) + " "@;
            constraint_sql(c) =~= match c.kind {
                ConstraintKind::PrimaryKey { columns, included } => head + "PRIMARY KEY"@ + " ("@
                    + joined(sqls(columns@), ", "@) + ")"@ + when(
                    included@.len() > 0,
                    " INCLUDE"@ + " ("@ + joined(sqls(included@), ", "@) + ")"@,
                ) + deferral(c.deferrable),
                ConstraintKind::Unique { columns, included, nulls_not_distinct } => head
                    + "UNIQUE"@ + when(nulls_not_distinct, " NULLS NOT DISTINCT"@) + " ("@ + joined(
                    sqls(columns@),
                    ", "@,
                ) + ")"@ + when(
                    included@.len() > 0,
                    " INCLUDE"@ + " ("@ + joined(sqls(included@), ", "@) + ")"@,
                ) + deferral(c.deferrable),
                ConstraintKind::Check { expression, no_inherit } => head + "CHECK ("@ + expression@
                    + ")"@ + when(no_inherit, " NO INHERIT"@) + deferral(c.deferrable),
                _ => Seq::empty(),
            }
        }),
{
    reveal_strlit("");
    assert(""@ =~= Seq::<char>::empty());
}

/// A column is defined by its name and type and by a clause for each property
/// it has; it forbids nulls exactly where it is not nullable.
pub proof fn law_columns_are_defined_clause_by_clause(c: Column)
    ensures
        column_sql(c) == name_sql(c.name@) + " "@ + type_sql(c.ty) + when(
            c.compression == Some(Compression::Pglz),
            " COMPRESSION "@ + "pglz"@,
        ) + when(c.compression == Some(Compression::Lz4), " COMPRESSION "@ + "lz4"@) + (
        match c.collation {
            Some(q) => " COLLATE "@ + q@.sql(),
            None => Seq::empty(),
        }) + (match c.default {
            Some(e) => " DEFAULT "@ + e.sql(),
            None => Seq::empty(),
        }) + when(
            c.identity == Some(Identity::Always),
            " "@ + "GENERATED ALWAYS AS IDENTITY"@,
        ) + when(
            c.identity == Some(Identity::ByDefault),
            " "@ + "GENERATED BY DEFAULT AS IDENTITY"@,
        ) + (match c.generated {
            Some(g) => " GENERATED ALWAYS AS ("@ + g@ + ") STORED"@,
            None => Seq::empty(),
        }) + when(!c.nullable, " NOT NULL"@),
{
    lemma_texts_add();
}

/// An index is defined by its name, relation, method, columns and a clause for
/// each property it has; building it concurrently changes nothing but that word.
pub proof fn law_indexes_are_defined_clause_by_clause(idx: Index, concurrently: bool)
    ensures
        create_index_sql(idx, concurrently) == "CREATE "@ + when(idx.unique, "UNIQUE "@)
            + "INDEX "@ + when(concurrently, "CONCURRENTLY "@) + name_sql(idx.qname.name@)
            + " ON "@ + (match idx.on {
            IndexParent::Table(q) => q@.sql(),
            IndexParent::Mv(q) => q@.sql(),
        }) + " USING "@ + method_sql(idx.method) + " ("@ + joined(sqls(idx.columns@), ", "@) + ")"@
            + when(
            idx.included@.len() > 0,
            " INCLUDE"@ + " ("@ + joined(sqls(idx.included@), ", "@) + ")"@,
        ) + when(idx.nulls_not_distinct, " NULLS NOT DISTINCT"@) + when(
            index_options(idx.storage).len() > 0,
            " WITH ("@ + joined(index_options(idx.storage), ", "@) + ")"@,
        ) + (match idx.tablespace {
            Some(name) => " TABLESPACE "@ + name_sql(name@),
            None => Seq::empty(),
        }) + (match idx.predicate {
            Some(p) => " WHERE "@ + p@,
            None => Seq::empty(),
        }) + ";"@,
{
    lemma_texts_add();
    reveal_strlit("CREATE ");
    reveal_strlit("UNIQUE ");
    reveal_strlit("INDEX ");
    reveal_strlit("CREATE INDEX ");
    reveal_strlit("CREATE UNIQUE INDEX ");
    assert("CREATE UNIQUE INDEX "@ =~= "CREATE "@ + "UNIQUE "@ + "INDEX "@);
    assert("CREATE INDEX "@ =~= "CREATE "@ + "INDEX "@);
}

/// A view is defined by its name, its options and its body, and by how far it
/// checks what is written through it.
pub proof fn law_views_are_defined_clause_by_clause(v: ViewDefinition, or_replace: bool)
    ensures
        create_view_sql(v, or_replace) =~= "CREATE "@ + when(or_replace, "OR REPLACE "@) + "VIEW "@
            + v.qname@.sql() + when(
            crate::plan::rewrite::views::view_options(
                v.security_barrier,
                v.security_invoker,
            ).len() > 0,
            " WITH ("@ + joined(
                crate::plan::rewrite::views::view_options(v.security_barrier, v.security_invoker),
                ", "@,
            ) + ")"@,
        ) + " AS\n"@ + v.body_canonical@ + when(
            v.check_option == Some(CheckOption::Local),
            "\nWITH LOCAL CHECK OPTION"@,
        ) + when(
            v.check_option == Some(CheckOption::Cascaded),
            "\nWITH CASCADED CHECK OPTION"@,
        ) + ";"@,
{
    reveal_strlit("CREATE ");
    reveal_strlit("OR REPLACE ");
    reveal_strlit("VIEW ");
    reveal_strlit("CREATE VIEW ");
    reveal_strlit("CREATE OR REPLACE VIEW ");
    assert("CREATE OR REPLACE VIEW "@ =~= "CREATE "@ + "OR REPLACE "@ + "VIEW "@);
    assert("CREATE VIEW "@ =~= "CREATE "@ + "VIEW "@);
}

/// A trigger is defined by its name, time, events, table, level, condition and
/// function.
pub proof fn law_triggers_are_defined_clause_by_clause(t: Trigger)
    ensures
        create_trigger_sql(t) == (if t.is_constraint {
            "CREATE CONSTRAINT TRIGGER "@
        } else {
            "CREATE TRIGGER "@
        }) + name_sql(t.qname.name@) + when(t.timing is Before, " BEFORE "@) + when(
            t.timing is After,
            " AFTER "@,
        ) + when(t.timing is InsteadOf, " INSTEAD OF "@) + joined(sqls(t.events@), " OR "@) + " ON "@
            + t.table@.sql() + deferral(t.deferrable) + when(
            t.transition_tables@.len() > 0,
            " REFERENCING "@ + joined(sqls(t.transition_tables@), " "@),
        ) + when(t.level is Row, " FOR EACH ROW"@) + when(
            t.level is Statement,
            " FOR EACH STATEMENT"@,
        ) + (match t.when_clause {
            Some(w) => " WHEN ("@ + w@ + ")"@,
            None => Seq::empty(),
        }) + " EXECUTE FUNCTION "@ + t.function_qname@.sql() + "("@ + joined(
            literals(t.function_args@),
            ", "@,
        ) + ");"@,
{
    lemma_texts_add();
    reveal_strlit("");
    assert(""@ =~= Seq::<char>::empty());
}

/// A sequence is defined by all its numbers, whether it starts over, and its
/// owner, where it has one.
pub proof fn law_sequences_are_defined_clause_by_clause(s: Sequence)
    ensures
        create_sequence_sql(s) =~= "CREATE SEQUENCE "@ + s.qname@.sql() + " AS "@ + type_sql(
            s.data_type,
        ) + " INCREMENT BY "@ + decimal(s.increment as int) + (match s.min_value {
            Some(n) => " "@ + "MINVALUE"@ + " "@ + decimal(n as int),
            None => " NO "@ + "MINVALUE"@,
        }) + (match s.max_value {
            Some(n) => " "@ + "MAXVALUE"@ + " "@ + decimal(n as int),
            None => " NO "@ + "MAXVALUE"@,
        }) + " START WITH "@ + decimal(s.start as int) + " CACHE "@ + decimal(s.cache as int)
            + when(s.cycle, " CYCLE"@) + when(!s.cycle, " NO CYCLE"@) + (match s.owned_by {
            Some(o) => " OWNED BY "@ + o.table@.sql() + "."@ + name_sql(o.column@),
            None => Seq::empty(),
        }) + ";"@,
{
}

/// The words of what a publication publishes: each operation stands there
/// exactly where it is published.
pub proof fn law_published_operations_read_back(k: PublishKinds)
    ensures
        publish_list(k).contains("insert"@) <==> k.insert,
        publish_list(k).contains("update"@) <==> k.update,
        publish_list(k).contains("delete"@) <==> k.delete,
        publish_list(k).contains("truncate"@) <==> k.truncate,
{
    reveal_strlit("insert");
    reveal_strlit("update");
    reveal_strlit("delete");
    reveal_strlit("truncate");
    assert("insert"@[0] == 'i' && "update"@[0] == 'u' && "delete"@[0] == 'd' && "truncate"@[0]
        == 't');
    let w = crate::plan::rewrite::publications::with_word(Seq::empty(), k.insert, "insert"@);
    let x = crate::plan::rewrite::publications::with_word(w, k.update, "update"@);
    let y = crate::plan::rewrite::publications::with_word(x, k.delete, "delete"@);
    let all = publish_list(k);
    assert forall|s: Seq<char>| #[trigger] all.contains(s) <==> (k.insert && s == "insert"@) || (
    k.update && s == "update"@) || (k.delete && s == "delete"@) || (k.truncate && s
        == "truncate"@) by {
        crate::plan::walks::lemma_push_contains(Seq::<Seq<char>>::empty(), "insert"@, s);
        crate::plan::walks::lemma_push_contains(w, "update"@, s);
        crate::plan::walks::lemma_push_contains(x, "delete"@, s);
        crate::plan::walks::lemma_push_contains(y, "truncate"@, s);
    }
}

/// A policy is defined by its table, whom it applies to, and its two conditions;
/// creating it also says whether it permits or restricts, and for which command.
pub proof fn law_policies_are_defined_clause_by_clause(
    table: crate::identifier::QualifiedName,
    p: Policy,
)
    ensures
        ({
            let tail = " TO "@ + (if p.roles@.len() == 0 {
                "PUBLIC"@
            } else {
                joined(sqls(p.roles@), ", "@)
            }) + (match p.using {
                Some(e) => " USING ("@ + e@ + ")"@,
                None => Seq::empty(),
            }) + (match p.with_check {
                Some(e) => " WITH CHECK ("@ + e@ + ")"@,
                None => Seq::empty(),
            }) + ";"@;
            let on = name_sql(p.name@) + " ON "@ + table@.sql();
            &&& alter_policy_sql(table, p) == "ALTER POLICY "@ + on + tail
            &&& create_policy_sql(table, p) == "CREATE POLICY "@ + on + when(
                p.permissive,
                " AS PERMISSIVE"@,
            ) + when(!p.permissive, " AS RESTRICTIVE"@) + " FOR "@ + (match p.command {
                PolicyCommand::All => "ALL"@,
                PolicyCommand::Select => "SELECT"@,
                PolicyCommand::Insert => "INSERT"@,
                PolicyCommand::Update => "UPDATE"@,
                PolicyCommand::Delete => "DELETE"@,
            }) + tail
        }),
{
    lemma_texts_add();
    reveal_strlit(" TO PUBLIC");
    reveal_strlit(" TO ");
    reveal_strlit("PUBLIC");
    assert(" TO PUBLIC"@ =~= " TO "@ + "PUBLIC"@);
}

/// A statistics object is defined by its kinds, where they are given, what it
/// covers, and its table.
pub proof fn law_statistics_are_defined_clause_by_clause(s: Statistic)
    ensures
        create_statistic_sql(s) =~= "CREATE STATISTICS "@ + s.qname@.sql() + when(
            s.kinds@.len() > 0,
            " ("@ + joined(sqls(s.kinds@), ", "@) + ")"@,
        ) + " ON "@ + joined(sqls(s.columns@), ", "@) + " FROM "@ + s.target@.sql() + ";"@,
{
}

/// A table is defined by its columns and then its constraints, or by the table it
/// is a part of and which rows it holds; by how it is partitioned; and by its
/// storage options.
pub proof fn law_tables_are_defined_clause_by_clause(t: Table)
    ensures
        create_table_sql(t) == "CREATE TABLE "@ + t.qname@.sql() + (match t.partition_of {
            Some(po) => " PARTITION OF "@ + po.parent@.sql() + " "@ + bounds_sql(po.bounds),
            None => if t.columns@.len() == 0 && t.constraints@.len() == 0 {
                " ()"@
            } else {
                " (\n    "@ + joined(sqls(t.columns@) + sqls(t.constraints@), ",\n    "@) + "\n)"@
            },
        }) + (match t.partition_by {
            Some(by) => " PARTITION BY "@ + strategy_sql(by.strategy) + " ("@ + joined(
                sqls(by.columns@),
                ", "@,
            ) + ")"@,
            None => Seq::empty(),
        }) + when(
            table_options(t.storage).len() > 0,
            " WITH ("@ + joined(table_options(t.storage), ", "@) + ")"@,
        ) + ";"@,
{
    lemma_texts_add();
    assert((sqls(t.columns@) + sqls(t.constraints@)).len() == t.columns@.len()
        + t.constraints@.len());
}

/// A materialized view is defined by its name, its options and its body, and
/// starts without rows.
pub proof fn law_materialized_views_are_defined_clause_by_clause(mv: MaterializedView)
    ensures
        create_mv_sql(mv) == "CREATE MATERIALIZED VIEW "@ + mv.qname@.sql() + when(
            mv_options(mv.storage).len() > 0,
            " WITH ("@ + joined(mv_options(mv.storage), ", "@) + ")"@,
        ) + " AS\n"@ + mv.body_canonical@ + "\nWITH NO DATA;"@,
{
    lemma_texts_add();
}

/// A publication is defined by what it publishes, all tables or given tables and
/// schemas, by which operations, and by whether partitions go by their root.
pub proof fn law_publications_are_defined_clause_by_clause(p: Publication)
    ensures
        create_publication_sql(p) == "CREATE PUBLICATION "@ + name_sql(p.name@) + (match p.scope {
            PublicationScope::AllTables => " FOR ALL TABLES"@,
            PublicationScope::Selective { schemas, tables } => when(
                tables@.len() > 0,
                " FOR TABLE "@ + joined(sqls(tables@), ", "@),
            ) + when(
                tables@.len() > 0 && schemas@.len() > 0,
                ", TABLES IN SCHEMA "@ + joined(sqls(schemas@), ", "@),
            ) + when(
                tables@.len() == 0 && schemas@.len() > 0,
                " FOR TABLES IN SCHEMA "@ + joined(sqls(schemas@), ", "@),
            ),
        }) + " WITH (publish = '"@ + joined(publish_list(p.publish), ", "@)
            + "', publish_via_partition_root = "@ + when(p.publish_via_partition_root, "true"@)
            + when(!p.publish_via_partition_root, "false"@) + ");"@,
{
    lemma_texts_add();
}

/// A subscription is defined by its connection, the publications it follows, and
/// its options, where any is given.
pub proof fn law_subscriptions_are_defined_clause_by_clause(s: Subscription)
    ensures
        create_subscription_sql(s) == "CREATE SUBSCRIPTION "@ + name_sql(s.name@)
            + " CONNECTION '"@ + doubled(s.connection@, '\'') + "' PUBLICATION "@ + joined(
            sqls(s.publications@),
            ", "@,
        ) + when(
            subscription_options(s.options).len() > 0,
            " WITH ("@ + joined(subscription_options(s.options), ", "@) + ")"@,
        ) + ";"@,
{
    lemma_texts_add();
}

/// The options of a subscription: each that is given stands there once, with its
/// own value, and none that is not given.
pub proof fn law_subscription_options_say_what_is_given(o: SubscriptionOptions)
    ensures
        subscription_options(o).len() == given(o.enabled is Some) + given(o.create_slot is Some)
            + given(o.slot_name is Some) + given(o.copy_data is Some) + given(o.binary is Some),
        o.enabled == Some(true) ==> subscription_options(o)[0] == "enabled"@ + " = "@ + "true"@,
        o.enabled == Some(false) ==> subscription_options(o)[0] == "enabled"@ + " = "@ + "false"@,
        o.create_slot == Some(true) ==> subscription_options(o)[given(o.enabled is Some) as int]
            == "create_slot"@ + " = "@ + "true"@,
        o.create_slot == Some(false) ==> subscription_options(o)[given(o.enabled is Some) as int]
            == "create_slot"@ + " = "@ + "false"@,
        o.slot_name matches Some(name) ==> subscription_options(o)[given(o.enabled is Some) + given(
            o.create_slot is Some,
        ) as int] == "slot_name = '"@ + doubled(name@, '\'') + "'"@,
        o.binary == Some(true) ==> subscription_options(o).last() == "binary"@ + " = "@ + "true"@,
        o.binary == Some(false) ==> subscription_options(o).last() == "binary"@ + " = "@ + "false"@,
{
}

/// One where something is given, and none otherwise.
pub open spec fn given(it: bool) -> nat {
    if it {
        1
    } else {
        0
    }
}

} // verus!
