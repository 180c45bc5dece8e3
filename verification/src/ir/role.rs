//! Cluster-wide roles.

use crate::identifier::Identifier;
use vstd::prelude::*;

verus! {

/// The attributes of a role.
#[derive(Debug, Clone, PartialEq, Eq)]
pub struct RoleAttributes {
    /// `SUPERUSER`.
    pub superuser: bool,
    /// `CREATEDB`.
    pub createdb: bool,
    /// `CREATEROLE`.
    pub createrole: bool,
    /// `INHERIT`.
    pub inherit: bool,
    /// `LOGIN`.
    pub login: bool,
    /// `REPLICATION`.
    pub replication: bool,
    /// `BYPASSRLS`.
    pub bypass_rls: bool,
    /// `CONNECTION LIMIT`.
    pub connection_limit: Option<i64>,
    /// `VALID UNTIL`.
    pub valid_until: Option<String>,
}

impl Default for RoleAttributes {
    /// What a role has when nothing is said: only `INHERIT`.
    fn default() -> (attrs: Self)
        ensures
            attrs == (RoleAttributes {
                superuser: false,
                createdb: false,
                createrole: false,
                inherit: true,
                login: false,
                replication: false,
                bypass_rls: false,
                connection_limit: None,
                valid_until: None,
            }),
    {
        RoleAttributes {
            superuser: false,
            createdb: false,
            createrole: false,
            inherit: true,
            login: false,
            replication: false,
            bypass_rls: false,
            connection_limit: None,
            valid_until: None,
        }
    }
}

/// A role.
#[derive(Debug, Clone, PartialEq, Eq)]
pub struct Role {
    /// Its name.
    pub name: Identifier,
    /// Its attributes.
    pub attributes: RoleAttributes,
    /// The roles it is a member of.
    pub member_of: Vec<Identifier>,
    /// Its comment.
    pub comment: Option<String>,
}

/// A tablespace.
#[derive(Debug, Clone, PartialEq, Eq)]
pub struct Tablespace {
    /// Its name.
    pub name: Identifier,
    /// Its directory.
    pub location: String,
    /// Its owner.
    pub owner: Option<Identifier>,
    /// Its comment.
    pub comment: Option<String>,
}

} // verus!
