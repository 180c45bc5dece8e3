//! SQL for functions and procedures.
//!
//! Each function produces one statement that ends with `;`.

use crate::identifier::{name_sql, QualifiedName};
use crate::ir::column_type::type_sql;
use crate::ir::function::{
    ArgMode, Function, FunctionArg, FunctionLanguage, NormalizedArgTypes, ParallelSafety,
    Procedure, ReturnType, SecurityMode, TableColumn, Volatility,
};
use crate::text::{
    append_sql, append_sql_list, finish_comment, joined, opt_str, prefixed, sqls, with_comment,
    SqlText, ToSql,
};
use vstd::prelude::*;
use vstd::string::*;

verus! {

/// `[mode ][name ]type[ DEFAULT expr]`; the mode `IN` is left out.
pub open spec fn arg_sql(arg: FunctionArg) -> Seq<char> {
    let a = match arg.mode {
        ArgMode::In => ""@,
        ArgMode::Out => "OUT "@,
        ArgMode::InOut => "INOUT "@,
        ArgMode::Variadic => "VARIADIC "@,
    };
    let b = match arg.name {
        Some(name) => a + name_sql(name@) + " "@,
        None => a,
    };
    let c = b + type_sql(arg.ty);
    match arg.default {
        Some(e) => c + " DEFAULT "@ + e@,
        None => c,
    }
}

impl SqlText for FunctionArg {
    open spec fn sql(&self) -> Seq<char> {
        arg_sql(*self)
    }
}

impl ToSql for FunctionArg {
    fn render_sql(&self) -> (text: String) {
        let mut out = match self.mode {
            ArgMode::In => "".to_owned(),
            ArgMode::Out => "OUT ".to_owned(),
            ArgMode::InOut => "INOUT ".to_owned(),
            ArgMode::Variadic => "VARIADIC ".to_owned(),
        };
        match &self.name {
            Some(name) => {
                append_sql(&mut out, name);
                out.append(" ");
            },
            None => {},
        }
        append_sql(&mut out, &self.ty);
        match &self.default {
            Some(e) => {
                out.append(" DEFAULT ");
                out.append(e.canonical_text.as_str());
            },
            None => {},
        }
        out
    }
}

impl SqlText for TableColumn {
    open spec fn sql(&self) -> Seq<char> {
        name_sql(self.name@) + " "@ + type_sql(self.ty)
    }
}

impl ToSql for TableColumn {
    fn render_sql(&self) -> (text: String) {
        let mut out = self.name.render_sql();
        out.append(" ");
        append_sql(&mut out, &self.ty);
        out
    }
}

/// What a function returns.
pub open spec fn return_sql(rt: ReturnType) -> Seq<char> {
    match rt {
        ReturnType::Scalar { ty } => type_sql(ty),
        ReturnType::SetOf { ty } => "SETOF "@ + type_sql(ty),
        ReturnType::Table { columns } => "TABLE("@ + joined(sqls(columns@), ", "@) + ")"@,
        ReturnType::Trigger => "trigger"@,
        ReturnType::EventTrigger => "event_trigger"@,
        ReturnType::Void => "void"@,
    }
}

/// Appends the arguments, separated by commas.
pub fn emit_arg_list(args: &Vec<FunctionArg>, out: &mut String)
    ensures
        final(out)@ == old(out)@ + joined(sqls(args@), ", "@),
{
    append_sql_list(out, args, ", ");
}

/// Appends what a function returns.
fn emit_return_type(rt: &ReturnType, out: &mut String)
    ensures
        final(out)@ == old(out)@ + return_sql(*rt),
{
    let text = match rt {
        ReturnType::Scalar { ty } => ty.render_sql(),
        ReturnType::SetOf { ty } => prefixed("SETOF ", ty),
        ReturnType::Table { columns } => {
            let mut t = "TABLE(".to_owned();
            append_sql_list(&mut t, columns, ", ");
            t.append(")");
            t
        },
        ReturnType::Trigger => "trigger".to_owned(),
        ReturnType::EventTrigger => "event_trigger".to_owned(),
        ReturnType::Void => "void".to_owned(),
    };
    out.append(text.as_str());
}

/// The argument types, separated by commas.
fn render_arg_types(args: &NormalizedArgTypes) -> (text: String)
    ensures
        text@ == joined(args@, ", "@),
{
    assert(sqls(args.types@) =~= args@);
    crate::text::join_sql(&args.types, ", ")
}

/// The name of a language.
pub open spec fn language_sql(l: FunctionLanguage) -> Seq<char> {
    match l {
        FunctionLanguage::Sql => "sql"@,
        FunctionLanguage::PlPgSql => "plpgsql"@,
    }
}

fn render_language(l: FunctionLanguage) -> (text: &'static str)
    ensures
        text@ == language_sql(l),
{
    match l {
        FunctionLanguage::Sql => "sql",
        FunctionLanguage::PlPgSql => "plpgsql",
    }
}

/// A statement with the attributes of a function, in fixed order.
pub open spec fn with_attributes(head: Seq<char>, f: Function) -> Seq<char> {
    let a = match f.volatility {
        Volatility::Immutable => head + " IMMUTABLE"@,
        Volatility::Stable => head + " STABLE"@,
        Volatility::Volatile => head,
    };
    let b = if f.strict {
        a + " STRICT"@
    } else {
        a
    };
    let c = if f.security is Definer {
        b + " SECURITY DEFINER"@
    } else {
        b
    };
    let d = match f.parallel {
        ParallelSafety::Safe => c + " PARALLEL SAFE"@,
        ParallelSafety::Restricted => c + " PARALLEL RESTRICTED"@,
        ParallelSafety::Unsafe => c,
    };
    let e = if f.leakproof {
        d + " LEAKPROOF"@
    } else {
        d
    };
    let g = match f.cost {
        Some(n) => e + " COST "@ + n.text@,
        None => e,
    };
    match f.rows {
        Some(n) => g + " ROWS "@ + n.text@,
        None => g,
    }
}

fn append_attributes(out: &mut String, f: &Function)
    ensures
        final(out)@ == with_attributes(old(out)@, *f),
{
    match f.volatility {
        Volatility::Immutable => out.append(" IMMUTABLE"),
        Volatility::Stable => out.append(" STABLE"),
        Volatility::Volatile => {},
    }
    if f.strict {
        out.append(" STRICT");
    }
    match f.security {
        SecurityMode::Definer => out.append(" SECURITY DEFINER"),
        SecurityMode::Invoker => {},
    }
    match f.parallel {
        ParallelSafety::Safe => out.append(" PARALLEL SAFE"),
        ParallelSafety::Restricted => out.append(" PARALLEL RESTRICTED"),
        ParallelSafety::Unsafe => {},
    }
    if f.leakproof {
        out.append(" LEAKPROOF");
    }
    match &f.cost {
        Some(n) => {
            out.append(" COST ");
            out.append(n.text.as_str());
        },
        None => {},
    }
    match &f.rows {
        Some(n) => {
            out.append(" ROWS ");
            out.append(n.text.as_str());
        },
        None => {},
    }
}

/// `CREATE OR REPLACE FUNCTION name(args) RETURNS ... LANGUAGE ... AS $pgevolve$...$pgevolve$;`
pub open spec fn create_function_sql(f: Function) -> Seq<char> {
    let a = "CREATE OR REPLACE FUNCTION "@ + f.qname@.sql() + "("@ + joined(sqls(f.args@), ", "@)
        + ")"@ + "\n    RETURNS "@ + return_sql(f.return_type) + "\n    LANGUAGE "@
        + language_sql(f.language);
    with_attributes(a, f) + "\nAS $pgevolve$"@ + f.body@ + "$pgevolve$;"@
}

/// `CREATE OR REPLACE FUNCTION name(args) RETURNS ... LANGUAGE ... AS $pgevolve$...$pgevolve$;`
pub fn emit_create_or_replace_function(f: &Function) -> (sql: String)
    ensures
        sql@ == create_function_sql(*f),
{
    let mut out = prefixed("CREATE OR REPLACE FUNCTION ", &f.qname);
    out.append("(");
    emit_arg_list(&f.args, &mut out);
    out.append(")");
    out.append("\n    RETURNS ");
    emit_return_type(&f.return_type, &mut out);
    out.append("\n    LANGUAGE ");
    out.append(render_language(f.language));
    append_attributes(&mut out, f);
    out.append("\nAS $pgevolve$");
    out.append(f.body.canonical_text());
    out.append("$pgevolve$;");
    out
}

/// `DROP FUNCTION name(types);`
pub open spec fn drop_function_sql(q: QualifiedName, args: NormalizedArgTypes) -> Seq<char> {
    "DROP FUNCTION "@ + q@.sql() + "("@ + joined(args@, ", "@) + ");"@
}

/// `DROP FUNCTION name(types);`
pub fn emit_drop_function(q: &QualifiedName, args: &NormalizedArgTypes) -> (sql: String)
    ensures
        sql@ == drop_function_sql(*q, *args),
{
    let mut out = prefixed("DROP FUNCTION ", q);
    out.append("(");
    let list = render_arg_types(args);
    out.append(list.as_str());
    out.append(");");
    out
}

/// `COMMENT ON FUNCTION name(types) IS ...;`
pub open spec fn comment_on_function_sql(
    q: QualifiedName,
    args: NormalizedArgTypes,
    comment: Option<Seq<char>>,
) -> Seq<char> {
    with_comment("COMMENT ON FUNCTION "@ + q@.sql() + "("@ + joined(args@, ", "@) + ")"@, comment)
}

/// `COMMENT ON FUNCTION name(types) IS ...;`
pub fn emit_comment_on_function(
    q: &QualifiedName,
    args: &NormalizedArgTypes,
    comment: Option<&str>,
) -> (sql: String)
    ensures
        sql@ == comment_on_function_sql(*q, *args, opt_str(comment)),
{
    let mut head = prefixed("COMMENT ON FUNCTION ", q);
    head.append("(");
    let list = render_arg_types(args);
    head.append(list.as_str());
    head.append(")");
    finish_comment(head, comment)
}

/// `CREATE OR REPLACE PROCEDURE name(args) LANGUAGE ... AS $pgevolve$...$pgevolve$;`
pub open spec fn create_procedure_sql(p: Procedure) -> Seq<char> {
    let a = "CREATE OR REPLACE PROCEDURE "@ + p.qname@.sql() + "("@ + joined(sqls(p.args@), ", "@)
        + ")"@ + "\n    LANGUAGE "@ + language_sql(p.language);
    let b = if p.security is Definer {
        a + " SECURITY DEFINER"@
    } else {
        a
    };
    b + "\nAS $pgevolve$"@ + p.body@ + "$pgevolve$;"@
}

/// `CREATE OR REPLACE PROCEDURE name(args) LANGUAGE ... AS $pgevolve$...$pgevolve$;`
pub fn emit_create_or_replace_procedure(p: &Procedure) -> (sql: String)
    ensures
        sql@ == create_procedure_sql(*p),
{
    let mut out = prefixed("CREATE OR REPLACE PROCEDURE ", &p.qname);
    out.append("(");
    emit_arg_list(&p.args, &mut out);
    out.append(")");
    out.append("\n    LANGUAGE ");
    out.append(render_language(p.language));
    match p.security {
        SecurityMode::Definer => out.append(" SECURITY DEFINER"),
        SecurityMode::Invoker => {},
    }
    out.append("\nAS $pgevolve$");
    out.append(p.body.canonical_text());
    out.append("$pgevolve$;");
    out
}

/// `DROP PROCEDURE name;`
pub open spec fn drop_procedure_sql(q: QualifiedName) -> Seq<char> {
    "DROP PROCEDURE "@ + q@.sql() + ";"@
}

/// `DROP PROCEDURE name;`
pub fn emit_drop_procedure(q: &QualifiedName) -> (sql: String)
    ensures
        sql@ == drop_procedure_sql(*q),
{
    let mut out = prefixed("DROP PROCEDURE ", q);
    out.append(";");
    out
}

/// `COMMENT ON PROCEDURE name IS ...;`
pub open spec fn comment_on_procedure_sql(
    q: QualifiedName,
    comment: Option<Seq<char>>,
) -> Seq<char> {
    with_comment("COMMENT ON PROCEDURE "@ + q@.sql(), comment)
}

/// `COMMENT ON PROCEDURE name IS ...;`
pub fn emit_comment_on_procedure(q: &QualifiedName, comment: Option<&str>) -> (sql: String)
    ensures
        sql@ == comment_on_procedure_sql(*q, opt_str(comment)),
{
    finish_comment(prefixed("COMMENT ON PROCEDURE ", q), comment)
}

} // verus!
