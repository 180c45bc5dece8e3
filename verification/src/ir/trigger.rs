//! Triggers and event triggers.

use crate::identifier::{Identifier, QualifiedName};
use crate::ir::constraint::Deferrable;
use crate::ir::expr::NormalizedExpr;
use vstd::prelude::*;

verus! {

/// When a trigger fires.
#[derive(Debug, Clone, Copy, PartialEq, Eq, Structural)]
pub enum TriggerTiming {
    /// `BEFORE`.
    Before,
    /// `AFTER`.
    After,
    /// `INSTEAD OF`.
    InsteadOf,
}

/// What a trigger fires on.
#[derive(Debug, Clone, PartialEq, Eq)]
pub enum TriggerEvent {
    /// `INSERT`.
    Insert,
    /// `UPDATE`, or `UPDATE OF` the given columns.
    Update {
        /// The columns; empty for any column.
        columns: Vec<Identifier>,
    },
    /// `DELETE`.
    Delete,
    /// `TRUNCATE`.
    Truncate,
}

/// How often a trigger fires.
#[derive(Debug, Clone, Copy, PartialEq, Eq, Structural)]
pub enum TriggerLevel {
    /// `FOR EACH ROW`.
    Row,
    /// `FOR EACH STATEMENT`.
    Statement,
}

/// `REFERENCING` a transition table.
#[derive(Debug, Clone, PartialEq, Eq)]
pub struct TransitionTable {
    /// `NEW TABLE` rather than `OLD TABLE`.
    pub is_new: bool,
    /// Its name in the trigger function.
    pub name: Identifier,
}

/// A trigger.
#[derive(Debug, Clone, PartialEq, Eq)]
pub struct Trigger {
    /// Its name, in the schema of its table.
    pub qname: QualifiedName,
    /// The relation it is on.
    pub table: QualifiedName,
    /// When it fires.
    pub timing: TriggerTiming,
    /// What it fires on.
    pub events: Vec<TriggerEvent>,
    /// How often it fires.
    pub level: TriggerLevel,
    /// `WHEN (...)`.
    pub when_clause: Option<NormalizedExpr>,
    /// `REFERENCING`.
    pub transition_tables: Vec<TransitionTable>,
    /// The function it calls.
    pub function_qname: QualifiedName,
    /// The literal arguments of the call.
    pub function_args: Vec<String>,
    /// `CREATE CONSTRAINT TRIGGER`.
    pub is_constraint: bool,
    /// When a constraint trigger is checked.
    pub deferrable: Deferrable,
    /// Its comment.
    pub comment: Option<String>,
}

/// What an event trigger fires on.
#[derive(Debug, Clone, Copy, PartialEq, Eq, Structural)]
pub enum EventTriggerEvent {
    /// `ddl_command_start`.
    DdlCommandStart,
    /// `ddl_command_end`.
    DdlCommandEnd,
    /// `sql_drop`.
    SqlDrop,
    /// `table_rewrite`.
    TableRewrite,
}

impl EventTriggerEvent {
    /// The event name.
    pub open spec fn keyword(self) -> Seq<char> {
        match self {
            EventTriggerEvent::DdlCommandStart => "ddl_command_start"@,
            EventTriggerEvent::DdlCommandEnd => "ddl_command_end"@,
            EventTriggerEvent::SqlDrop => "sql_drop"@,
            EventTriggerEvent::TableRewrite => "table_rewrite"@,
        }
    }

    /// The event name.
    pub fn sql(&self) -> (text: &'static str)
        ensures
            text@ == self.keyword(),
    {
        match self {
            EventTriggerEvent::DdlCommandStart => "ddl_command_start",
            EventTriggerEvent::DdlCommandEnd => "ddl_command_end",
            EventTriggerEvent::SqlDrop => "sql_drop",
            EventTriggerEvent::TableRewrite => "table_rewrite",
        }
    }
}

/// Whether an event trigger fires.
#[derive(Debug, Clone, Copy, PartialEq, Eq, Structural)]
pub enum EventTriggerEnabled {
    /// On the origin.
    Enabled,
    /// Never.
    Disabled,
    /// On a replica.
    Replica,
    /// Always.
    Always,
}

impl EventTriggerEnabled {
    /// The clause of `ALTER EVENT TRIGGER`.
    pub open spec fn clause(self) -> Seq<char> {
        match self {
            EventTriggerEnabled::Enabled => "ENABLE"@,
            EventTriggerEnabled::Disabled => "DISABLE"@,
            EventTriggerEnabled::Replica => "ENABLE REPLICA"@,
            EventTriggerEnabled::Always => "ENABLE ALWAYS"@,
        }
    }

    /// The clause of `ALTER EVENT TRIGGER`.
    pub fn alter_clause(&self) -> (text: &'static str)
        ensures
            text@ == self.clause(),
    {
        match self {
            EventTriggerEnabled::Enabled => "ENABLE",
            EventTriggerEnabled::Disabled => "DISABLE",
            EventTriggerEnabled::Replica => "ENABLE REPLICA",
            EventTriggerEnabled::Always => "ENABLE ALWAYS",
        }
    }
}

/// An event trigger.
#[derive(Debug, Clone, PartialEq, Eq)]
pub struct EventTrigger {
    /// Its name.
    pub name: Identifier,
    /// What it fires on.
    pub event: EventTriggerEvent,
    /// The command tags it is limited to; empty for all.
    pub tag_filter: Vec<String>,
    /// The function it calls.
    pub function: QualifiedName,
    /// Whether it fires.
    pub enabled: EventTriggerEnabled,
    /// Its owner.
    pub owner: Option<Identifier>,
    /// Its comment.
    pub comment: Option<String>,
}

} // verus!
