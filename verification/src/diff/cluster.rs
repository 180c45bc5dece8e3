//! Changes to cluster-wide objects.

use crate::diff::destructiveness::Destructiveness;
use crate::identifier::Identifier;
use crate::ir::role::{Role, RoleAttributes, Tablespace};
use vstd::prelude::*;

verus! {

/// One change to a cluster-wide object.
#[derive(Debug, Clone, PartialEq, Eq)]
pub enum ClusterChange {
    /// Create a role.
    CreateRole(Role),
    /// Drop a role.
    DropRole {
        /// The role.
        name: Identifier,
    },
    /// Change the attributes of a role.
    AlterRoleAttributes {
        /// The role.
        name: Identifier,
        /// Its attributes so far.
        from: RoleAttributes,
        /// Its new attributes.
        to: RoleAttributes,
    },
    /// Make a role a member of another.
    GrantRoleMembership {
        /// The member.
        member: Identifier,
        /// The role it joins.
        role: Identifier,
    },
    /// Take a role out of another.
    RevokeRoleMembership {
        /// The member.
        member: Identifier,
        /// The role it leaves.
        role: Identifier,
    },
    /// Set or drop the comment of a role.
    CommentOnRole {
        /// The role.
        name: Identifier,
        /// Its new comment.
        comment: Option<String>,
    },
    /// Create a tablespace.
    CreateTablespace(Tablespace),
    /// Drop a tablespace.
    DropTablespace {
        /// The tablespace.
        name: Identifier,
    },
    /// Change the owner of a tablespace.
    AlterTablespaceOwner {
        /// The tablespace.
        name: Identifier,
        /// Its new owner.
        owner: Identifier,
    },
    /// Set options of a tablespace.
    SetTablespaceOptions {
        /// The tablespace.
        name: Identifier,
        /// The options, as key and value.
        options: Vec<(String, String)>,
    },
    /// Set or drop the comment of a tablespace.
    CommentOnTablespace {
        /// The tablespace.
        name: Identifier,
        /// Its new comment.
        comment: Option<String>,
    },
}

/// One change and the approval it needs.
#[derive(Debug, Clone, PartialEq, Eq)]
pub struct ClusterChangeEntry {
    /// The change.
    pub change: ClusterChange,
    /// The approval it needs.
    pub destructiveness: Destructiveness,
}

/// The changes between two clusters.
#[derive(Debug, Clone, PartialEq, Eq)]
pub struct ClusterChangeSet {
    /// The changes.
    pub entries: Vec<ClusterChangeEntry>,
}

} // verus!
