//! Privileges and grants.

use crate::identifier::Identifier;
use crate::model::{dup_list, models, Duplicate};
use vstd::prelude::*;

verus! {

/// A privilege.
#[derive(Debug, Clone, Copy, PartialEq, Eq, Structural)]
pub enum Privilege {
    /// `SELECT`.
    Select,
    /// `INSERT`.
    Insert,
    /// `UPDATE`.
    Update,
    /// `DELETE`.
    Delete,
    /// `TRUNCATE`.
    Truncate,
    /// `REFERENCES`.
    References,
    /// `TRIGGER`.
    Trigger,
    /// `USAGE`.
    Usage,
    /// `CREATE`.
    Create,
    /// `EXECUTE`.
    Execute,
}

impl Privilege {
    /// The SQL keyword.
    pub open spec fn keyword(self) -> Seq<char> {
        match self {
            Privilege::Select => "SELECT"@,
            Privilege::Insert => "INSERT"@,
            Privilege::Update => "UPDATE"@,
            Privilege::Delete => "DELETE"@,
            Privilege::Truncate => "TRUNCATE"@,
            Privilege::References => "REFERENCES"@,
            Privilege::Trigger => "TRIGGER"@,
            Privilege::Usage => "USAGE"@,
            Privilege::Create => "CREATE"@,
            Privilege::Execute => "EXECUTE"@,
        }
    }

    /// The SQL keyword.
    pub fn sql_keyword(&self) -> (text: &'static str)
        ensures
            text@ == self.keyword(),
    {
        match self {
            Privilege::Select => "SELECT",
            Privilege::Insert => "INSERT",
            Privilege::Update => "UPDATE",
            Privilege::Delete => "DELETE",
            Privilege::Truncate => "TRUNCATE",
            Privilege::References => "REFERENCES",
            Privilege::Trigger => "TRIGGER",
            Privilege::Usage => "USAGE",
            Privilege::Create => "CREATE",
            Privilege::Execute => "EXECUTE",
        }
    }
}

/// Who receives a grant.
#[derive(Debug, Clone, PartialEq, Eq)]
pub enum GrantTarget {
    /// Everyone.
    Public,
    /// One role.
    Role(Identifier),
}

/// A grant.
#[derive(Debug, Clone, PartialEq, Eq)]
pub struct Grant {
    /// Who receives it.
    pub grantee: GrantTarget,
    /// What is granted.
    pub privilege: Privilege,
    /// `WITH GRANT OPTION`.
    pub with_grant_option: bool,
    /// The columns of a column-level grant.
    pub columns: Option<Vec<Identifier>>,
}

/// The model of a grant: `grantee` is `None` for everyone.
#[verifier::ext_equal]
pub struct GrantModel {
    /// Who receives it.
    pub grantee: Option<Seq<char>>,
    /// What is granted.
    pub privilege: Privilege,
    /// `WITH GRANT OPTION`.
    pub with_grant_option: bool,
    /// The columns of a column-level grant.
    pub columns: Option<Seq<Seq<char>>>,
}

impl View for Grant {
    type V = GrantModel;

    open spec fn view(&self) -> GrantModel {
        GrantModel {
            grantee: match self.grantee {
                GrantTarget::Public => None,
                GrantTarget::Role(role) => Some(role@),
            },
            privilege: self.privilege,
            with_grant_option: self.with_grant_option,
            columns: match self.columns {
                None => None,
                Some(columns) => Some(models(columns@)),
            },
        }
    }
}

impl Duplicate for Grant {
    fn duplicate(&self) -> (copy: Grant) {
        let grantee = match &self.grantee {
            GrantTarget::Public => GrantTarget::Public,
            GrantTarget::Role(role) => GrantTarget::Role(role.duplicate()),
        };
        let columns = match &self.columns {
            None => None,
            Some(columns) => Some(dup_list(columns)),
        };
        Grant {
            grantee,
            privilege: self.privilege,
            with_grant_option: self.with_grant_option,
            columns,
        }
    }
}

} // verus!
