//! Name every object that `DROP TYPE <t> CASCADE` would destroy, so that the
//! destruction is on record and not hidden behind the word.

use crate::identifier::{name_sql, QnameModel, QualifiedName};
use crate::ir::catalog::Catalog;
use crate::ir::column_type::ColumnType;
use crate::ir::function::{Function, FunctionArg, ReturnType, TableColumn};
use crate::ir::table::{Column, Table};
use crate::ir::user_type::{CompositeAttribute, UserType, UserTypeKind};
use crate::ir::view::{MaterializedView, ViewDefinition};
use crate::plan::edges::{DepEdge, NodeId};
use crate::text::{append_sql, join, joined, prefixed, texts, ToSql};
use vstd::prelude::*;
use vstd::string::*;

verus! {

/// Whether a type is the user-defined type of that name.
pub open spec fn is_type(ty: ColumnType, q: QnameModel) -> bool {
    ty matches ColumnType::UserDefined(name) && name@ == q
}

fn same_type(ty: &ColumnType, q: &QualifiedName) -> (r: bool)
    ensures
        r == is_type(*ty, q@),
{
    match ty {
        ColumnType::UserDefined(name) => name.same(q),
        _ => false,
    }
}

/// Something that may use a type.
pub trait UsesType {
    /// Whether it uses the type of that name.
    spec fn uses(&self, q: QnameModel) -> bool;

    /// What it is called in a list of destroyed objects.
    spec fn label(&self) -> Seq<char>;
}

/// Something of which it can be told whether it uses a type.
pub trait TypeUser: UsesType {
    /// Whether it uses the type of that name.
    fn uses_type(&self, q: &QualifiedName) -> (r: bool)
        ensures
            r == self.uses(q@),
    ;

    /// What it is called in a list of destroyed objects.
    fn render_label(&self) -> (text: String)
        ensures
            text@ == self.label(),
    ;
}

/// Whether one of the attributes has the type.
pub open spec fn attribute_uses(list: Seq<CompositeAttribute>, q: QnameModel) -> bool {
    exists|i: int| 0 <= i < list.len() && is_type((#[trigger] list[i]).ty, q)
}

fn some_attribute(list: &Vec<CompositeAttribute>, q: &QualifiedName) -> (r: bool)
    ensures
        r == attribute_uses(list@, q@),
{
    let mut i: usize = 0;
    while i < list.len()
        invariant
            i <= list@.len(),
            forall|k: int| 0 <= k < i ==> !is_type((#[trigger] list@[k]).ty, q@),
        decreases list@.len() - i,
    {
        if same_type(&list[i].ty, q) {
            return true;
        }
        i = i + 1;
    }
    false
}

impl UsesType for UserType {
    open spec fn uses(&self, q: QnameModel) -> bool {
        match self.kind {
            UserTypeKind::Enum { values } => false,
            UserTypeKind::Domain { base, nullable, default, check_constraints, collation } =>
                is_type(base, q),
            UserTypeKind::Composite { attributes } => attribute_uses(attributes@, q),
            UserTypeKind::Range {
                subtype,
                subtype_opclass,
                collation,
                canonical,
                subtype_diff,
                multirange_type_name,
            } => subtype@ == q,
        }
    }

    open spec fn label(&self) -> Seq<char> {
        "type "@ + self.qname@.sql()
    }
}

impl TypeUser for UserType {
    fn uses_type(&self, q: &QualifiedName) -> (r: bool) {
        match &self.kind {
            UserTypeKind::Enum { .. } => false,
            UserTypeKind::Domain { base, .. } => same_type(base, q),
            UserTypeKind::Composite { attributes } => some_attribute(attributes, q),
            UserTypeKind::Range { subtype, .. } => subtype.same(q),
        }
    }

    fn render_label(&self) -> (text: String) {
        prefixed("type ", &self.qname)
    }
}

/// Whether one of the arguments has the type.
pub open spec fn arg_uses(list: Seq<FunctionArg>, q: QnameModel) -> bool {
    exists|i: int| 0 <= i < list.len() && is_type((#[trigger] list[i]).ty, q)
}

fn some_arg(list: &Vec<FunctionArg>, q: &QualifiedName) -> (r: bool)
    ensures
        r == arg_uses(list@, q@),
{
    let mut i: usize = 0;
    while i < list.len()
        invariant
            i <= list@.len(),
            forall|k: int| 0 <= k < i ==> !is_type((#[trigger] list@[k]).ty, q@),
        decreases list@.len() - i,
    {
        if same_type(&list[i].ty, q) {
            return true;
        }
        i = i + 1;
    }
    false
}

/// Whether one of the columns of a returned table has the type.
pub open spec fn result_column_uses(list: Seq<TableColumn>, q: QnameModel) -> bool {
    exists|i: int| 0 <= i < list.len() && is_type((#[trigger] list[i]).ty, q)
}

fn some_result_column(list: &Vec<TableColumn>, q: &QualifiedName) -> (r: bool)
    ensures
        r == result_column_uses(list@, q@),
{
    let mut i: usize = 0;
    while i < list.len()
        invariant
            i <= list@.len(),
            forall|k: int| 0 <= k < i ==> !is_type((#[trigger] list@[k]).ty, q@),
        decreases list@.len() - i,
    {
        if same_type(&list[i].ty, q) {
            return true;
        }
        i = i + 1;
    }
    false
}

/// Whether what is returned uses the type.
pub open spec fn return_uses(rt: ReturnType, q: QnameModel) -> bool {
    match rt {
        ReturnType::Scalar { ty } => is_type(ty, q),
        ReturnType::SetOf { ty } => is_type(ty, q),
        ReturnType::Table { columns } => result_column_uses(columns@, q),
        _ => false,
    }
}

impl UsesType for Function {
    open spec fn uses(&self, q: QnameModel) -> bool {
        arg_uses(self.args@, q) || return_uses(self.return_type, q)
    }

    open spec fn label(&self) -> Seq<char> {
        "function "@ + self.qname@.sql()
    }
}

impl TypeUser for Function {
    fn uses_type(&self, q: &QualifiedName) -> (r: bool) {
        some_arg(&self.args, q) || match &self.return_type {
            ReturnType::Scalar { ty } => same_type(ty, q),
            ReturnType::SetOf { ty } => same_type(ty, q),
            ReturnType::Table { columns } => some_result_column(columns, q),
            _ => false,
        }
    }

    fn render_label(&self) -> (text: String) {
        prefixed("function ", &self.qname)
    }
}

/// Whether a body refers to the type.
pub open spec fn body_uses(deps: Seq<DepEdge>, q: QnameModel) -> bool {
    exists|i: int|
        0 <= i < deps.len() && ((#[trigger] deps[i]).to matches NodeId::Type(name) && name@ == q)
}

fn body_refers(deps: &Vec<DepEdge>, q: &QualifiedName) -> (r: bool)
    ensures
        r == body_uses(deps@, q@),
{
    let mut i: usize = 0;
    while i < deps.len()
        invariant
            i <= deps@.len(),
            forall|k: int|
                0 <= k < i ==> !((#[trigger] deps@[k]).to matches NodeId::Type(name) && name@
                    == q@),
        decreases deps@.len() - i,
    {
        match &deps[i].to {
            NodeId::Type(name) => {
                if name.same(q) {
                    return true;
                }
            },
            _ => {},
        }
        i = i + 1;
    }
    false
}

impl UsesType for ViewDefinition {
    open spec fn uses(&self, q: QnameModel) -> bool {
        body_uses(self.body_dependencies@, q)
    }

    open spec fn label(&self) -> Seq<char> {
        "view "@ + self.qname@.sql()
    }
}

impl TypeUser for ViewDefinition {
    fn uses_type(&self, q: &QualifiedName) -> (r: bool) {
        body_refers(&self.body_dependencies, q)
    }

    fn render_label(&self) -> (text: String) {
        prefixed("view ", &self.qname)
    }
}

impl UsesType for MaterializedView {
    open spec fn uses(&self, q: QnameModel) -> bool {
        body_uses(self.body_dependencies@, q)
    }

    open spec fn label(&self) -> Seq<char> {
        "materialized view "@ + self.qname@.sql()
    }
}

impl TypeUser for MaterializedView {
    fn uses_type(&self, q: &QualifiedName) -> (r: bool) {
        body_refers(&self.body_dependencies, q)
    }

    fn render_label(&self) -> (text: String) {
        prefixed("materialized view ", &self.qname)
    }
}

/// The labels of those in a list that use the type, in order.
pub open spec fn labels<T: UsesType>(list: Seq<T>, q: QnameModel) -> Seq<Seq<char>>
    decreases list.len(),
{
    if list.len() == 0 {
        Seq::empty()
    } else if list.last().uses(q) {
        labels(list.drop_last(), q).push(list.last().label())
    } else {
        labels(list.drop_last(), q)
    }
}

fn push_labels<T: TypeUser>(out: &mut Vec<String>, list: &Vec<T>, q: &QualifiedName)
    ensures
        texts(final(out)@) == texts(old(out)@) + labels(list@, q@),
{
    let ghost before = texts(out@);
    let mut i: usize = 0;
    assert(texts(out@) =~= before + labels(list@.take(0), q@));
    while i < list.len()
        invariant
            i <= list@.len(),
            texts(out@) == before + labels(list@.take(i as int), q@),
        decreases list@.len() - i,
    {
        assert(list@.take(i + 1).drop_last() =~= list@.take(i as int));
        let ghost here = texts(out@);
        if list[i].uses_type(q) {
            let text = list[i].render_label();
            out.push(text);
            assert(texts(out@) =~= here.push(text@));
        }
        assert(texts(out@) =~= before + labels(list@.take(i + 1), q@));
        i = i + 1;
    }
    assert(list@.take(list@.len() as int) =~= list@);
}

/// The labels of a table's columns that have the type, in order.
pub open spec fn column_labels(
    t: QnameModel,
    columns: Seq<Column>,
    q: QnameModel,
) -> Seq<Seq<char>>
    decreases columns.len(),
{
    if columns.len() == 0 {
        Seq::empty()
    } else if is_type(columns.last().ty, q) {
        column_labels(t, columns.drop_last(), q).push(
            "column "@ + t.sql() + "."@ + name_sql(columns.last().name@),
        )
    } else {
        column_labels(t, columns.drop_last(), q)
    }
}

fn push_column_labels(
    out: &mut Vec<String>,
    t: &QualifiedName,
    columns: &Vec<Column>,
    q: &QualifiedName,
)
    ensures
        texts(final(out)@) == texts(old(out)@) + column_labels(t@, columns@, q@),
{
    let ghost before = texts(out@);
    let mut i: usize = 0;
    assert(texts(out@) =~= before + column_labels(t@, columns@.take(0), q@));
    while i < columns.len()
        invariant
            i <= columns@.len(),
            texts(out@) == before + column_labels(t@, columns@.take(i as int), q@),
        decreases columns@.len() - i,
    {
        assert(columns@.take(i + 1).drop_last() =~= columns@.take(i as int));
        let ghost here = texts(out@);
        if same_type(&columns[i].ty, q) {
            let mut text = prefixed("column ", t);
            text.append(".");
            append_sql(&mut text, &columns[i].name);
            out.push(text);
            assert(texts(out@) =~= here.push(text@));
        }
        assert(texts(out@) =~= before + column_labels(t@, columns@.take(i + 1), q@));
        i = i + 1;
    }
    assert(columns@.take(columns@.len() as int) =~= columns@);
}

/// The labels of all columns of all tables that have the type, in order.
pub open spec fn table_labels(tables: Seq<Table>, q: QnameModel) -> Seq<Seq<char>>
    decreases tables.len(),
{
    if tables.len() == 0 {
        Seq::empty()
    } else {
        table_labels(tables.drop_last(), q) + column_labels(
            tables.last().qname@,
            tables.last().columns@,
            q,
        )
    }
}

fn push_table_labels(out: &mut Vec<String>, tables: &Vec<Table>, q: &QualifiedName)
    ensures
        texts(final(out)@) == texts(old(out)@) + table_labels(tables@, q@),
{
    let ghost before = texts(out@);
    let mut i: usize = 0;
    assert(texts(out@) =~= before + table_labels(tables@.take(0), q@));
    while i < tables.len()
        invariant
            i <= tables@.len(),
            texts(out@) == before + table_labels(tables@.take(i as int), q@),
        decreases tables@.len() - i,
    {
        assert(tables@.take(i + 1).drop_last() =~= tables@.take(i as int));
        push_column_labels(out, &tables[i].qname, &tables[i].columns, q);
        assert(texts(out@) =~= before + table_labels(tables@.take(i + 1), q@));
        i = i + 1;
    }
    assert(tables@.take(tables@.len() as int) =~= tables@);
}

/// Everything in a catalog that uses the type: columns, types, functions,
/// views, materialized views, each in the catalog's order.
pub open spec fn type_dependents(q: QnameModel, target: Catalog) -> Seq<Seq<char>> {
    table_labels(target.tables@, q) + labels(target.types@, q) + labels(target.functions@, q)
        + labels(target.views@, q) + labels(target.materialized_views@, q)
}

/// Names everything in a catalog that uses the type.
pub fn enumerate_type_dependents(q: &QualifiedName, target: &Catalog) -> (list: Vec<String>)
    ensures
        texts(list@) == type_dependents(q@, *target),
{
    let mut out: Vec<String> = Vec::new();
    push_table_labels(&mut out, &target.tables, q);
    push_labels(&mut out, &target.types, q);
    push_labels(&mut out, &target.functions, q);
    push_labels(&mut out, &target.views, q);
    push_labels(&mut out, &target.materialized_views, q);
    assert(texts(out@) =~= type_dependents(q@, *target));
    out
}

/// What is added to the reason for a cascade: nothing where nothing else is
/// destroyed.
pub open spec fn cascade_text(q: QnameModel, dependents: Seq<Seq<char>>) -> Seq<char> {
    if dependents.len() == 0 {
        ""@
    } else {
        "; DROP TYPE "@ + q.sql() + " CASCADE also destroys: "@ + joined(dependents, ", "@)
    }
}

/// What is added to the reason for a cascade.
pub fn render_cascade_destruction(q: &QualifiedName, dependents: &Vec<String>) -> (text: String)
    ensures
        text@ == cascade_text(q@, texts(dependents@)),
{
    assert(texts(dependents@).len() == dependents@.len());
    if dependents.len() == 0 {
        "".to_owned()
    } else {
        let mut out = prefixed("; DROP TYPE ", q);
        out.append(" CASCADE also destroys: ");
        let list = join(dependents, ", ");
        out.append(list.as_str());
        out
    }
}

} // verus!
