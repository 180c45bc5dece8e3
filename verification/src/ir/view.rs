//! Views and materialized views.

use crate::identifier::{Identifier, QnameModel, QualifiedName};
use crate::ir::column_type::ColumnType;
use crate::ir::expr::NormalizedBody;
use crate::ir::grant::{Grant, GrantModel};
use crate::ir::reloptions::MaterializedViewStorageOptions;
use crate::model::{dup_list, dup_opt, models, opt_model, Duplicate};
use crate::plan::edges::{DepEdge, DepEdgeModel};
use crate::text::{dup_opt_text, opt_text};
use vstd::prelude::*;

verus! {

/// `WITH CHECK OPTION`.
#[derive(Debug, Clone, Copy, PartialEq, Eq, Structural)]
pub enum CheckOption {
    /// `LOCAL`.
    Local,
    /// `CASCADED`.
    Cascaded,
}

/// An output column of a view.
#[derive(Debug, Clone, PartialEq, Eq)]
pub struct ViewColumn {
    /// Its name.
    pub name: Identifier,
    /// Its type, where it is known.
    pub column_type: Option<ColumnType>,
    /// Its comment.
    pub comment: Option<String>,
}

/// A view.
#[derive(Debug, Clone, PartialEq, Eq)]
pub struct ViewDefinition {
    /// Its name.
    pub qname: QualifiedName,
    /// Its output columns.
    pub columns: Vec<ViewColumn>,
    /// Its query.
    pub body_canonical: NormalizedBody,
    /// What its query refers to.
    pub body_dependencies: Vec<DepEdge>,
    /// `security_barrier`.
    pub security_barrier: Option<bool>,
    /// `security_invoker`.
    pub security_invoker: Option<bool>,
    /// `WITH CHECK OPTION`.
    pub check_option: Option<CheckOption>,
    /// Its comment.
    pub comment: Option<String>,
    /// Its query as written.
    pub raw_body: String,
    /// Its owner.
    pub owner: Option<Identifier>,
    /// Its grants.
    pub grants: Vec<Grant>,
}

/// A materialized view.
#[derive(Debug, Clone, PartialEq, Eq)]
pub struct MaterializedView {
    /// Its name.
    pub qname: QualifiedName,
    /// Its output columns.
    pub columns: Vec<ViewColumn>,
    /// Its query.
    pub body_canonical: NormalizedBody,
    /// What its query refers to.
    pub body_dependencies: Vec<DepEdge>,
    /// Its comment.
    pub comment: Option<String>,
    /// Its query as written.
    pub raw_body: String,
    /// Its owner.
    pub owner: Option<Identifier>,
    /// Its grants.
    pub grants: Vec<Grant>,
    /// Storage options.
    pub storage: MaterializedViewStorageOptions,
}

/// The model of a view column.
#[verifier::ext_equal]
pub struct ViewColumnModel {
    /// Its name.
    pub name: Seq<char>,
    /// Its type as written.
    pub column_type: Option<Seq<char>>,
    /// Its comment.
    pub comment: Option<Seq<char>>,
}

/// The model of a view.
#[verifier::ext_equal]
pub struct ViewModel {
    /// Its name.
    pub qname: QnameModel,
    /// Its output columns.
    pub columns: Seq<ViewColumnModel>,
    /// Its query.
    pub body: Seq<char>,
    /// What its query refers to.
    pub body_dependencies: Seq<DepEdgeModel>,
    /// `security_barrier`.
    pub security_barrier: Option<bool>,
    /// `security_invoker`.
    pub security_invoker: Option<bool>,
    /// `WITH CHECK OPTION`.
    pub check_option: Option<CheckOption>,
    /// Its comment.
    pub comment: Option<Seq<char>>,
    /// Its query as written.
    pub raw_body: Seq<char>,
    /// Its owner.
    pub owner: Option<Seq<char>>,
    /// Its grants.
    pub grants: Seq<GrantModel>,
}

/// The model of a materialized view.
#[verifier::ext_equal]
pub struct MaterializedViewModel {
    /// Its name.
    pub qname: QnameModel,
    /// Its output columns.
    pub columns: Seq<ViewColumnModel>,
    /// Its query.
    pub body: Seq<char>,
    /// What its query refers to.
    pub body_dependencies: Seq<DepEdgeModel>,
    /// Its comment.
    pub comment: Option<Seq<char>>,
    /// Its query as written.
    pub raw_body: Seq<char>,
    /// Its owner.
    pub owner: Option<Seq<char>>,
    /// Its grants.
    pub grants: Seq<GrantModel>,
    /// Storage options.
    pub storage: MaterializedViewStorageOptions,
}

impl View for ViewColumn {
    type V = ViewColumnModel;

    open spec fn view(&self) -> ViewColumnModel {
        ViewColumnModel {
            name: self.name@,
            column_type: opt_model(self.column_type),
            comment: opt_text(self.comment),
        }
    }
}

impl Duplicate for ViewColumn {
    fn duplicate(&self) -> (copy: ViewColumn) {
        ViewColumn {
            name: self.name.duplicate(),
            column_type: dup_opt(&self.column_type),
            comment: dup_opt_text(&self.comment),
        }
    }
}

impl View for ViewDefinition {
    type V = ViewModel;

    open spec fn view(&self) -> ViewModel {
        ViewModel {
            qname: self.qname@,
            columns: models(self.columns@),
            body: self.body_canonical@,
            body_dependencies: models(self.body_dependencies@),
            security_barrier: self.security_barrier,
            security_invoker: self.security_invoker,
            check_option: self.check_option,
            comment: opt_text(self.comment),
            raw_body: self.raw_body@,
            owner: opt_model(self.owner),
            grants: models(self.grants@),
        }
    }
}

impl Duplicate for ViewDefinition {
    fn duplicate(&self) -> (copy: ViewDefinition) {
        ViewDefinition {
            qname: self.qname.duplicate(),
            columns: dup_list(&self.columns),
            body_canonical: self.body_canonical.duplicate(),
            body_dependencies: dup_list(&self.body_dependencies),
            security_barrier: self.security_barrier,
            security_invoker: self.security_invoker,
            check_option: self.check_option,
            comment: dup_opt_text(&self.comment),
            raw_body: self.raw_body.clone(),
            owner: dup_opt(&self.owner),
            grants: dup_list(&self.grants),
        }
    }
}

impl View for MaterializedView {
    type V = MaterializedViewModel;

    open spec fn view(&self) -> MaterializedViewModel {
        MaterializedViewModel {
            qname: self.qname@,
            columns: models(self.columns@),
            body: self.body_canonical@,
            body_dependencies: models(self.body_dependencies@),
            comment: opt_text(self.comment),
            raw_body: self.raw_body@,
            owner: opt_model(self.owner),
            grants: models(self.grants@),
            storage: self.storage,
        }
    }
}

impl Duplicate for MaterializedView {
    fn duplicate(&self) -> (copy: MaterializedView) {
        MaterializedView {
            qname: self.qname.duplicate(),
            columns: dup_list(&self.columns),
            body_canonical: self.body_canonical.duplicate(),
            body_dependencies: dup_list(&self.body_dependencies),
            comment: dup_opt_text(&self.comment),
            raw_body: self.raw_body.clone(),
            owner: dup_opt(&self.owner),
            grants: dup_list(&self.grants),
            storage: self.storage,
        }
    }
}

} // verus!
