//! The catalog: every object of one database.

use crate::identifier::QualifiedName;
use crate::ir::collation::Collation;
use crate::ir::extension::Extension;
use crate::ir::function::{Function, Procedure};
use crate::ir::index::Index;
use crate::ir::replication::{Publication, Subscription};
use crate::ir::routine_objects::{Aggregate, Cast};
use crate::ir::schema::Schema;
use crate::ir::sequence::Sequence;
use crate::ir::statistic::Statistic;
use crate::ir::table::Table;
use crate::ir::trigger::{EventTrigger, Trigger};
use crate::ir::user_type::UserType;
use crate::ir::view::{MaterializedView, ViewDefinition};
use vstd::prelude::*;

verus! {

/// Every object of one database.
#[derive(Debug, Clone, PartialEq, Eq)]
pub struct Catalog {
    /// Schemas.
    pub schemas: Vec<Schema>,
    /// Tables.
    pub tables: Vec<Table>,
    /// Indexes.
    pub indexes: Vec<Index>,
    /// Sequences.
    pub sequences: Vec<Sequence>,
    /// Views.
    pub views: Vec<ViewDefinition>,
    /// Materialized views.
    pub materialized_views: Vec<MaterializedView>,
    /// User-defined types.
    pub types: Vec<UserType>,
    /// Functions.
    pub functions: Vec<Function>,
    /// Procedures.
    pub procedures: Vec<Procedure>,
    /// Triggers.
    pub triggers: Vec<Trigger>,
    /// Event triggers.
    pub event_triggers: Vec<EventTrigger>,
    /// Aggregates.
    pub aggregates: Vec<Aggregate>,
    /// Casts.
    pub casts: Vec<Cast>,
    /// Extensions.
    pub extensions: Vec<Extension>,
    /// Publications.
    pub publications: Vec<Publication>,
    /// Subscriptions.
    pub subscriptions: Vec<Subscription>,
    /// Statistics objects.
    pub statistics: Vec<Statistic>,
    /// Collations.
    pub collations: Vec<Collation>,
}

impl Catalog {
    /// No objects.
    pub open spec fn is_empty(&self) -> bool {
        &&& self.schemas@.len() == 0
        &&& self.tables@.len() == 0
        &&& self.indexes@.len() == 0
        &&& self.sequences@.len() == 0
        &&& self.views@.len() == 0
        &&& self.materialized_views@.len() == 0
        &&& self.types@.len() == 0
        &&& self.functions@.len() == 0
        &&& self.procedures@.len() == 0
        &&& self.triggers@.len() == 0
        &&& self.event_triggers@.len() == 0
        &&& self.aggregates@.len() == 0
        &&& self.casts@.len() == 0
        &&& self.extensions@.len() == 0
        &&& self.publications@.len() == 0
        &&& self.subscriptions@.len() == 0
        &&& self.statistics@.len() == 0
        &&& self.collations@.len() == 0
    }

    /// A catalog without objects.
    pub fn empty() -> (catalog: Catalog)
        ensures
            catalog.is_empty(),
    {
        Catalog {
            schemas: Vec::new(),
            tables: Vec::new(),
            indexes: Vec::new(),
            sequences: Vec::new(),
            views: Vec::new(),
            materialized_views: Vec::new(),
            types: Vec::new(),
            functions: Vec::new(),
            procedures: Vec::new(),
            triggers: Vec::new(),
            event_triggers: Vec::new(),
            aggregates: Vec::new(),
            casts: Vec::new(),
            extensions: Vec::new(),
            publications: Vec::new(),
            subscriptions: Vec::new(),
            statistics: Vec::new(),
            collations: Vec::new(),
        }
    }

    /// A table of that name is in the catalog.
    pub open spec fn has_table(&self, q: QualifiedName) -> bool {
        exists|i: int| 0 <= i < self.tables@.len() && #[trigger] self.tables@[i].qname@ == q@
    }

    /// Whether a table of that name is in the catalog.
    pub fn table_exists(&self, q: &QualifiedName) -> (r: bool)
        ensures
            r == self.has_table(*q),
    {
        let mut i: usize = 0;
        while i < self.tables.len()
            invariant
                i <= self.tables@.len(),
                forall|k: int| 0 <= k < i ==> #[trigger] self.tables@[k].qname@ != q@,
            decreases self.tables@.len() - i,
        {
            if self.tables[i].qname.same(q) {
                assert(self.tables@[i as int].qname@ == q@);
                return true;
            }
            i = i + 1;
        }
        false
    }
}

} // verus!
