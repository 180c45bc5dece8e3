//! Errors raised by the dependency analyzer and planner.

use crate::identifier::{QnameModel, QualifiedName};
use crate::ir::function::NormalizedArgTypes;
use crate::model::models;
use crate::plan::edges::NodeId;
use crate::text::{join, join_sql, joined, sqls, texts};
use vstd::prelude::*;
use vstd::string::*;

verus! {

/// Errors raised by the plan-ordering phase.
#[derive(Debug, PartialEq, Eq)]
pub enum PlanError {
    /// A dependency cycle remained after the planner attempted to break it
    /// by taking foreign keys out, and no body closes it. Carries the rendered
    /// node identifiers participating in the cycle.
    UnbreakableCycle(Vec<String>),
    /// The modify graph still cycles after foreign keys were taken out.
    UnexpectedCycleAfterFkExtraction(Vec<String>),
    /// The drop graph cycles. Drops never have legitimate cycles; this
    /// indicates a corrupt target catalog.
    UnexpectedDropCycle(Vec<String>),
    /// An internal invariant was violated.
    Internal(String),
    /// Body-derived cycle in the dependency graph, such as two views that
    /// query each other. The source has to be edited to break the cycle.
    BodyCycle {
        /// Nodes participating in the cycle, in graph-walk order.
        nodes: Vec<NodeId>,
    },
    /// An AST resolution error escalated to plan time.
    AstResolution(String),
    /// The `view_drop_create_dependents` policy is `false` and at least one
    /// change would force dependent views to be dropped and recreated.
    DependentViewsBlocked {
        /// Views that would need to be recreated.
        views: Vec<QualifiedName>,
    },
}

/// What `format!("{:?}", s)` writes for a string.
pub uninterp spec fn debug_text(s: Seq<char>) -> Seq<char>;

/// The [`std::fmt::Debug`] formatting of a `str`. The text is a function of the
/// string alone; nothing more is claimed of it.
#[verifier::external_body]
pub(crate) fn debug_str(s: &str) -> (text: String)
    ensures
        text@ == debug_text(s@),
{
    format!("{:?}", s)
}

/// Each text of a list as [`debug_text`] writes it.
pub open spec fn debug_parts(list: Seq<Seq<char>>) -> Seq<Seq<char>> {
    list.map_values(|s: Seq<char>| debug_text(s))
}

/// A list of texts as it appears in messages: `["a", "b"]`.
pub open spec fn debug_list(list: Seq<Seq<char>>) -> Seq<char> {
    "["@ + joined(debug_parts(list), ", "@) + "]"@
}

/// Renders a list of texts as it appears in messages.
fn debug_texts(list: &Vec<String>) -> (text: String)
    ensures
        text@ == debug_list(texts(list@)),
{
    let mut parts: Vec<String> = Vec::new();
    let mut i: usize = 0;
    while i < list.len()
        invariant
            i <= list@.len(),
            texts(parts@) =~= debug_parts(texts(list@)).take(i as int),
        decreases list@.len() - i,
    {
        let ghost before = texts(parts@);
        let part = debug_str(list[i].as_str());
        parts.push(part);
        assert(texts(parts@) =~= before.push(part@));
        i = i + 1;
    }
    assert(texts(parts@) =~= debug_parts(texts(list@)));
    let mut out = "[".to_owned();
    let inner = join(&parts, ", ");
    out.append(inner.as_str());
    out.append("]");
    out
}

/// A routine as it appears in messages: `name(types)`.
pub open spec fn routine_display(q: QnameModel, args: Seq<Seq<char>>) -> Seq<char> {
    q.display() + "("@ + joined(args, ","@) + ")"@
}

/// A node as it appears in the message of a body-derived cycle.
pub open spec fn node_display(n: NodeId) -> Seq<char> {
    match n {
        NodeId::Schema(s) => s@,
        NodeId::Extension(s) => s@,
        NodeId::Publication(s) => s@,
        NodeId::Subscription(s) => s@,
        NodeId::EventTrigger(s) => s@,
        NodeId::Table(q) => q@.display(),
        NodeId::Index(q) => q@.display(),
        NodeId::Sequence(q) => q@.display(),
        NodeId::View(q) => q@.display(),
        NodeId::Mv(q) => q@.display(),
        NodeId::Type(q) => q@.display(),
        NodeId::Procedure(q) => q@.display(),
        NodeId::Statistic(q) => q@.display(),
        NodeId::Collation(q) => q@.display(),
        NodeId::TsDictionary(q) => q@.display(),
        NodeId::TsConfiguration(q) => q@.display(),
        NodeId::Trigger(q) => "trigger "@ + q@.display(),
        NodeId::Constraint { table, name } => table@.display() + "."@ + name@,
        NodeId::Function(q, args) => routine_display(q@, args@),
        NodeId::Aggregate(q, args) => routine_display(q@, args@),
        NodeId::Cast(source, target) => "cast("@ + source@.display() + " as "@ + target@.display()
            + ")"@,
    }
}

/// Renders a routine as it appears in messages.
pub fn render_routine(q: &QualifiedName, args: &NormalizedArgTypes) -> (text: String)
    ensures
        text@ == routine_display(q@, args@),
{
    let mut out = q.to_string();
    out.append("(");
    assert(sqls(args.types@) =~= models(args.types@));
    let types = join_sql(&args.types, ",");
    out.append(types.as_str());
    out.append(")");
    out
}

/// Renders a node as it appears in the message of a body-derived cycle.
pub fn render_node(n: &NodeId) -> (text: String)
    ensures
        text@ == node_display(*n),
{
    match n {
        NodeId::Schema(s)
        | NodeId::Extension(s)
        | NodeId::Publication(s)
        | NodeId::Subscription(s)
        | NodeId::EventTrigger(s) => s.as_str().to_owned(),
        NodeId::Table(q)
        | NodeId::Index(q)
        | NodeId::Sequence(q)
        | NodeId::View(q)
        | NodeId::Mv(q)
        | NodeId::Type(q)
        | NodeId::Procedure(q)
        | NodeId::Statistic(q)
        | NodeId::Collation(q)
        | NodeId::TsDictionary(q)
        | NodeId::TsConfiguration(q) => q.to_string(),
        NodeId::Trigger(q) => {
            let mut out = "trigger ".to_owned();
            let name = q.to_string();
            out.append(name.as_str());
            out
        },
        NodeId::Constraint { table, name } => {
            let mut out = table.to_string();
            out.append(".");
            out.append(name.as_str());
            out
        },
        NodeId::Function(q, args) | NodeId::Aggregate(q, args) => render_routine(q, args),
        NodeId::Cast(source, target) => {
            let mut out = "cast(".to_owned();
            let from = source.to_string();
            out.append(from.as_str());
            out.append(" as ");
            let to = target.to_string();
            out.append(to.as_str());
            out.append(")");
            out
        },
    }
}

/// The texts of a list of nodes.
pub open spec fn node_displays(nodes: Seq<NodeId>) -> Seq<Seq<char>> {
    nodes.map_values(|n: NodeId| node_display(n))
}

/// Nodes joined by arrows.
pub fn format_node_chain(nodes: &Vec<NodeId>) -> (text: String)
    ensures
        text@ == joined(node_displays(nodes@), " \u{2192} "@),
{
    let mut parts: Vec<String> = Vec::new();
    let mut i: usize = 0;
    while i < nodes.len()
        invariant
            i <= nodes@.len(),
            texts(parts@) =~= node_displays(nodes@).take(i as int),
        decreases nodes@.len() - i,
    {
        let ghost before = texts(parts@);
        let part = render_node(&nodes[i]);
        parts.push(part);
        assert(texts(parts@) =~= before.push(part@));
        i = i + 1;
    }
    assert(texts(parts@) =~= node_displays(nodes@));
    join(&parts, " \u{2192} ")
}

/// The names of a list as they appear in messages.
pub open spec fn displays(names: Seq<QualifiedName>) -> Seq<Seq<char>> {
    names.map_values(|q: QualifiedName| q@.display())
}

fn join_displays(names: &Vec<QualifiedName>) -> (text: String)
    ensures
        text@ == joined(displays(names@), ", "@),
{
    let mut parts: Vec<String> = Vec::new();
    let mut i: usize = 0;
    while i < names.len()
        invariant
            i <= names@.len(),
            texts(parts@) =~= displays(names@).take(i as int),
        decreases names@.len() - i,
    {
        let ghost before = texts(parts@);
        let part = names[i].to_string();
        parts.push(part);
        assert(texts(parts@) =~= before.push(part@));
        i = i + 1;
    }
    assert(texts(parts@) =~= displays(names@));
    join(&parts, ", ")
}

impl PlanError {
    /// The message text.
    pub open spec fn message(&self) -> Seq<char> {
        match *self {
            PlanError::UnbreakableCycle(nodes) => "unbreakable dependency cycle: "@ + debug_list(
                texts(nodes@),
            ),
            PlanError::UnexpectedCycleAfterFkExtraction(nodes) =>
                "unexpected cycle in modify graph after FK extraction: "@ + debug_list(
                texts(nodes@),
            ),
            PlanError::UnexpectedDropCycle(nodes) => "unexpected cycle in drop graph: "@
                + debug_list(texts(nodes@)),
            PlanError::Internal(reason) => "internal error: "@ + reason@,
            PlanError::BodyCycle { nodes } => "body-derived dependency cycle: "@ + joined(
                node_displays(nodes@),
                " \u{2192} "@,
            ),
            PlanError::AstResolution(reason) => "AST resolution failed during planning: "@
                + reason@,
            PlanError::DependentViewsBlocked { views } =>
                "view_drop_create_dependents is disabled but the following views would be force-recreated: "@
                + joined(displays(views@), ", "@),
        }
    }

    /// The error message.
    pub fn to_string(&self) -> (text: String)
        ensures
            text@ == self.message(),
    {
        match self {
            PlanError::UnbreakableCycle(nodes) => {
                let mut out = "unbreakable dependency cycle: ".to_owned();
                let list = debug_texts(nodes);
                out.append(list.as_str());
                out
            },
            PlanError::UnexpectedCycleAfterFkExtraction(nodes) => {
                let mut out =
                    "unexpected cycle in modify graph after FK extraction: ".to_owned();
                let list = debug_texts(nodes);
                out.append(list.as_str());
                out
            },
            PlanError::UnexpectedDropCycle(nodes) => {
                let mut out = "unexpected cycle in drop graph: ".to_owned();
                let list = debug_texts(nodes);
                out.append(list.as_str());
                out
            },
            PlanError::Internal(reason) => {
                let mut out = "internal error: ".to_owned();
                out.append(reason.as_str());
                out
            },
            PlanError::BodyCycle { nodes } => {
                let mut out = "body-derived dependency cycle: ".to_owned();
                let chain = format_node_chain(nodes);
                out.append(chain.as_str());
                out
            },
            PlanError::AstResolution(reason) => {
                let mut out = "AST resolution failed during planning: ".to_owned();
                out.append(reason.as_str());
                out
            },
            PlanError::DependentViewsBlocked { views } => {
                let mut out =
                    "view_drop_create_dependents is disabled but the following views would be force-recreated: ".to_owned();
                let list = join_displays(views);
                out.append(list.as_str());
                out
            },
        }
    }
}

} // verus!
