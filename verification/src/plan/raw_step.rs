//! The smallest unit of work the executor will attempt.
//!
//! After the rewrite pass, every step's SQL is fixed: the executor performs
//! no further transformation. `intent_id` is filled in later, once
//! destructive intents have been collated.

use crate::identifier::{QnameModel, QualifiedName};
use crate::model::models;
use crate::text::opt_text;
use vstd::prelude::*;

verus! {

/// Whether a step can run inside a `BEGIN; ... COMMIT;` block.
///
/// [`group_steps`](super::grouping::group_steps) partitions the step list by
/// it. `CONCURRENTLY` index operations are the typical
/// [`OutsideTransaction`](Self::OutsideTransaction) case.
#[derive(Debug, Clone, Copy, PartialEq, Eq, Hash, Structural)]
pub enum TransactionConstraint {
    /// May execute inside a `BEGIN ... COMMIT`.
    InTransaction,
    /// Must execute outside a transaction (e.g., `CREATE INDEX CONCURRENTLY`).
    OutsideTransaction,
}

/// What kind of operation a [`RawStep`] performs.
///
/// Its snake-case name is the `kind=` value in the plan's
/// `-- @pgevolve step ...` directive comments.
#[derive(Debug, Clone, Copy, PartialEq, Eq, Hash, Structural)]
pub enum StepKind {
    /// `CREATE SCHEMA`.
    CreateSchema,
    /// `DROP SCHEMA`.
    DropSchema,
    /// `COMMENT ON SCHEMA`.
    AlterSchemaComment,
    /// `CREATE TABLE`.
    CreateTable,
    /// `DROP TABLE`.
    DropTable,
    /// `COMMENT ON TABLE`.
    AlterTableSetComment,
    /// `ALTER TABLE ... SET TABLESPACE`.
    AlterTableSetTablespace,
    /// `ALTER TABLE ... ADD COLUMN`.
    AddColumn,
    /// `ALTER TABLE ... DROP COLUMN`.
    DropColumn,
    /// `ALTER TABLE ... ALTER COLUMN ... TYPE`.
    AlterColumnType,
    /// `ALTER TABLE ... ALTER COLUMN ... SET/DROP NOT NULL`.
    SetColumnNullable,
    /// `ALTER TABLE ... ALTER COLUMN ... SET/DROP DEFAULT`.
    SetColumnDefault,
    /// `COMMENT ON COLUMN`.
    SetColumnComment,
    /// `ALTER TABLE ... ALTER COLUMN ... ADD/DROP IDENTITY`.
    SetColumnIdentity,
    /// `ALTER TABLE ... ALTER COLUMN ... SET/DROP EXPRESSION`.
    SetColumnGenerated,
    /// `ALTER TABLE ... ALTER COLUMN ... SET STORAGE`.
    SetColumnStorage,
    /// `ALTER TABLE ... ALTER COLUMN ... SET COMPRESSION`.
    SetColumnCompression,
    /// `ALTER TABLE ... ADD CONSTRAINT` (validated immediately).
    AddConstraint,
    /// `ALTER TABLE ... ADD CONSTRAINT ... NOT VALID`.
    AddConstraintNotValid,
    /// `ALTER TABLE ... VALIDATE CONSTRAINT`.
    ValidateConstraint,
    /// `ALTER TABLE ... DROP CONSTRAINT`.
    DropConstraint,
    /// `COMMENT ON CONSTRAINT`.
    SetConstraintComment,
    /// `CREATE INDEX`.
    CreateIndex,
    /// `CREATE INDEX CONCURRENTLY`.
    CreateIndexConcurrent,
    /// `DROP INDEX`.
    DropIndex,
    /// `DROP INDEX CONCURRENTLY`.
    DropIndexConcurrent,
    /// `CREATE SEQUENCE`.
    CreateSequence,
    /// `DROP SEQUENCE`.
    DropSequence,
    /// `ALTER SEQUENCE`.
    AlterSequence,
    /// Intermediate `ADD CONSTRAINT __pgevolve_chk_<col> CHECK (col IS NOT NULL) NOT VALID`
    /// step in the SET NOT NULL pattern.
    AddCheckForNotNull,
    /// `CREATE [OR REPLACE] VIEW`.
    CreateView,
    /// `DROP VIEW`.
    DropView,
    /// `CREATE OR REPLACE VIEW` that changes the check option.
    AlterViewSetCheckOption,
    /// `CREATE MATERIALIZED VIEW ... WITH NO DATA`.
    CreateMaterializedView,
    /// `DROP MATERIALIZED VIEW`.
    DropMaterializedView,
    /// `REFRESH MATERIALIZED VIEW [CONCURRENTLY]`.
    RefreshMaterializedView,
    /// `ALTER VIEW ... SET (...)`.
    AlterViewSetReloption,
    /// `COMMENT ON VIEW / MATERIALIZED VIEW / COLUMN` for views and MVs.
    CommentOnView,
    /// `CREATE TYPE` (enum, domain, or composite).
    CreateType,
    /// `DROP TYPE`.
    DropType,
    /// `ALTER TYPE … ADD VALUE`.
    AlterTypeAddValue,
    /// `ALTER TYPE … RENAME VALUE`.
    AlterTypeRenameValue,
    /// `ALTER DOMAIN … ADD CONSTRAINT … CHECK (…)`.
    AlterDomainAddConstraint,
    /// `ALTER DOMAIN … DROP CONSTRAINT`.
    AlterDomainDropConstraint,
    /// `ALTER DOMAIN … SET DEFAULT` / `DROP DEFAULT`.
    AlterDomainSetDefault,
    /// `ALTER DOMAIN … SET NOT NULL` / `DROP NOT NULL`.
    AlterDomainSetNotNull,
    /// `ALTER TYPE … ADD ATTRIBUTE`.
    AlterTypeAddAttribute,
    /// `ALTER TYPE … DROP ATTRIBUTE`.
    AlterTypeDropAttribute,
    /// `ALTER TYPE … ALTER ATTRIBUTE … TYPE`.
    AlterTypeAlterAttributeType,
    /// `COMMENT ON TYPE` / `COMMENT ON DOMAIN`.
    CommentOnType,
    /// `CREATE OR REPLACE FUNCTION`.
    CreateOrReplaceFunction,
    /// `DROP FUNCTION`.
    DropFunction,
    /// `COMMENT ON FUNCTION`.
    CommentOnFunction,
    /// `CREATE OR REPLACE PROCEDURE`.
    CreateOrReplaceProcedure,
    /// `DROP PROCEDURE`.
    DropProcedure,
    /// `COMMENT ON PROCEDURE`.
    CommentOnProcedure,
    /// `CREATE EXTENSION [IF NOT EXISTS] name [WITH SCHEMA s] [VERSION 'v']`.
    CreateExtension,
    /// `DROP EXTENSION name CASCADE`. Destructive (intent required).
    DropExtension,
    /// `ALTER EXTENSION name UPDATE TO 'v'`.
    AlterExtensionUpdate,
    /// `COMMENT ON EXTENSION name IS '...'`.
    CommentOnExtension,
    /// `CREATE [CONSTRAINT] TRIGGER name ... ON table ...`.
    CreateTrigger,
    /// `DROP TRIGGER name ON table`.
    DropTrigger,
    /// `COMMENT ON TRIGGER name ON table IS '...'`.
    CommentOnTrigger,
    /// `ALTER TABLE parent ATTACH PARTITION child FOR VALUES ...`.
    AttachPartition,
    /// `ALTER TABLE parent DETACH PARTITION child`.
    DetachPartition,
    /// `CREATE ROLE`.
    CreateRole,
    /// `DROP ROLE`.
    DropRole,
    /// `ALTER ROLE`.
    AlterRole,
    /// `GRANT ROLE MEMBERSHIP`.
    GrantRoleMembership,
    /// `REVOKE ROLE MEMBERSHIP`.
    RevokeRoleMembership,
    /// `COMMENT ON ROLE`.
    CommentOnRole,
    /// `CREATE TABLESPACE`.
    CreateTablespace,
    /// `DROP TABLESPACE`.
    DropTablespace,
    /// `ALTER TABLESPACE OWNER`.
    AlterTablespaceOwner,
    /// `SET TABLESPACE OPTIONS`.
    SetTablespaceOptions,
    /// `COMMENT ON TABLESPACE`.
    CommentOnTablespace,
    /// `ALTER OBJECT OWNER`.
    AlterObjectOwner,
    /// `GRANT OBJECT PRIVILEGE`.
    GrantObjectPrivilege,
    /// `REVOKE OBJECT PRIVILEGE`.
    RevokeObjectPrivilege,
    /// `GRANT COLUMN PRIVILEGE`.
    GrantColumnPrivilege,
    /// `REVOKE COLUMN PRIVILEGE`.
    RevokeColumnPrivilege,
    /// `ALTER DEFAULT PRIVILEGES`.
    AlterDefaultPrivileges,
    /// `CREATE POLICY`.
    CreatePolicy,
    /// `DROP POLICY`.
    DropPolicy,
    /// `ALTER POLICY`.
    AlterPolicy,
    /// `SET TABLE ROW SECURITY`.
    SetTableRowSecurity,
    /// `SET TABLE FORCE ROW SECURITY`.
    SetTableForceRowSecurity,
    /// `SET TABLE STORAGE`.
    SetTableStorage,
    /// `SET INDEX STORAGE`.
    SetIndexStorage,
    /// `SET MATERIALIZED VIEW STORAGE`.
    SetMaterializedViewStorage,
    /// `CREATE PUBLICATION`.
    CreatePublication,
    /// `DROP PUBLICATION`.
    DropPublication,
    /// `REPLACE PUBLICATION`.
    ReplacePublication,
    /// `ALTER PUBLICATION ADD TABLE`.
    AlterPublicationAddTable,
    /// `ALTER PUBLICATION DROP TABLE`.
    AlterPublicationDropTable,
    /// `ALTER PUBLICATION SET TABLE`.
    AlterPublicationSetTable,
    /// `ALTER PUBLICATION ADD SCHEMA`.
    AlterPublicationAddSchema,
    /// `ALTER PUBLICATION DROP SCHEMA`.
    AlterPublicationDropSchema,
    /// `ALTER PUBLICATION SET PUBLISH`.
    AlterPublicationSetPublish,
    /// `ALTER PUBLICATION SET VIA ROOT`.
    AlterPublicationSetViaRoot,
    /// `COMMENT ON PUBLICATION`.
    CommentOnPublication,
    /// `CREATE SUBSCRIPTION`.
    CreateSubscription,
    /// `DROP SUBSCRIPTION`.
    DropSubscription,
    /// `ALTER SUBSCRIPTION CONNECTION`.
    AlterSubscriptionConnection,
    /// `ALTER SUBSCRIPTION ADD PUBLICATION`.
    AlterSubscriptionAddPublication,
    /// `ALTER SUBSCRIPTION DROP PUBLICATION`.
    AlterSubscriptionDropPublication,
    /// `ALTER SUBSCRIPTION SET OPTIONS`.
    AlterSubscriptionSetOptions,
    /// `COMMENT ON SUBSCRIPTION`.
    CommentOnSubscription,
    /// `CREATE STATISTIC`.
    CreateStatistic,
    /// `DROP STATISTIC`.
    DropStatistic,
    /// `REPLACE STATISTIC`.
    ReplaceStatistic,
    /// `ALTER STATISTIC SET TARGET`.
    AlterStatisticSetTarget,
    /// `COMMENT ON STATISTIC`.
    CommentOnStatistic,
    /// `CREATE COLLATION`.
    CreateCollation,
    /// `DROP COLLATION`.
    DropCollation,
    /// `RENAME COLLATION`.
    RenameCollation,
    /// `REPLACE COLLATION`.
    ReplaceCollation,
    /// `COMMENT ON COLLATION`.
    CommentOnCollation,
    /// `CREATE EVENT TRIGGER`.
    CreateEventTrigger,
    /// `DROP EVENT TRIGGER`.
    DropEventTrigger,
    /// `ALTER EVENT TRIGGER ENABLE`.
    AlterEventTriggerEnable,
    /// `ALTER EVENT TRIGGER OWNER`.
    AlterEventTriggerOwner,
    /// `COMMENT ON EVENT TRIGGER`.
    CommentOnEventTrigger,
    /// `CREATE AGGREGATE`.
    CreateAggregate,
    /// `DROP AGGREGATE`.
    DropAggregate,
    /// `ALTER AGGREGATE OWNER`.
    AlterAggregateOwner,
    /// `COMMENT ON AGGREGATE`.
    CommentOnAggregate,
    /// `CREATE CAST`.
    CreateCast,
    /// `DROP CAST`.
    DropCast,
    /// `COMMENT ON CAST`.
    CommentOnCast,
    /// `CREATE TS DICTIONARY`.
    CreateTsDictionary,
    /// `DROP TS DICTIONARY`.
    DropTsDictionary,
    /// `ALTER TS DICTIONARY`.
    AlterTsDictionary,
    /// `ALTER TS DICTIONARY OWNER`.
    AlterTsDictionaryOwner,
    /// `COMMENT ON TS DICTIONARY`.
    CommentOnTsDictionary,
    /// `CREATE TS CONFIGURATION`.
    CreateTsConfiguration,
    /// `DROP TS CONFIGURATION`.
    DropTsConfiguration,
    /// `ADD TS CONFIG MAPPING`.
    AddTsConfigMapping,
    /// `ALTER TS CONFIG MAPPING`.
    AlterTsConfigMapping,
    /// `DROP TS CONFIG MAPPING`.
    DropTsConfigMapping,
    /// `ALTER TS CONFIGURATION OWNER`.
    AlterTsConfigurationOwner,
    /// `COMMENT ON TS CONFIGURATION`.
    CommentOnTsConfiguration,
}

/// One unit of work the executor will attempt.
///
/// `step_no` and `intent_id` start at zero and `None`, and are assigned later
/// by [`Plan::from_grouped`](super::plan::Plan::from_grouped).
#[derive(Debug, Clone, PartialEq, Eq)]
pub struct RawStep {
    /// 1-indexed step number across the whole plan; `0` until assigned.
    pub step_no: u32,
    /// What kind of operation.
    pub kind: StepKind,
    /// Whether the step is destructive (requires explicit intent approval).
    pub destructive: bool,
    /// Human-readable reason for destructiveness, if any.
    pub destructive_reason: Option<String>,
    /// Intent id; `None` until assigned.
    pub intent_id: Option<u32>,
    /// Objects this step affects (used by directive comments).
    pub targets: Vec<QualifiedName>,
    /// Final SQL emitted to disk.
    pub sql: String,
    /// Whether the step can run inside a transaction.
    pub transactional: TransactionConstraint,
}

/// The model of a step.
#[verifier::ext_equal]
pub struct StepModel {
    /// Step number.
    pub step_no: u32,
    /// What kind of operation.
    pub kind: StepKind,
    /// Whether the step is destructive.
    pub destructive: bool,
    /// Why it is.
    pub destructive_reason: Option<Seq<char>>,
    /// Intent id.
    pub intent_id: Option<u32>,
    /// Objects it affects.
    pub targets: Seq<QnameModel>,
    /// Its SQL.
    pub sql: Seq<char>,
    /// Whether it can run inside a transaction.
    pub transactional: TransactionConstraint,
}

impl View for RawStep {
    type V = StepModel;

    open spec fn view(&self) -> StepModel {
        StepModel {
            step_no: self.step_no,
            kind: self.kind,
            destructive: self.destructive,
            destructive_reason: opt_text(self.destructive_reason),
            intent_id: self.intent_id,
            targets: models(self.targets@),
            sql: self.sql@,
            transactional: self.transactional,
        }
    }
}

/// A step that has not been numbered.
pub open spec fn unnumbered(
    kind: StepKind,
    destructive: bool,
    reason: Option<Seq<char>>,
    targets: Seq<QnameModel>,
    sql: Seq<char>,
    transactional: TransactionConstraint,
) -> StepModel {
    StepModel {
        step_no: 0,
        kind,
        destructive,
        destructive_reason: reason,
        intent_id: None,
        targets,
        sql,
        transactional,
    }
}

/// A step that needs no approval and runs inside a transaction.
pub open spec fn safe_step(kind: StepKind, targets: Seq<QnameModel>, sql: Seq<char>) -> StepModel {
    unnumbered(kind, false, None, targets, sql, TransactionConstraint::InTransaction)
}

/// A step that runs inside a transaction.
pub open spec fn gated_step(
    kind: StepKind,
    destructive: bool,
    reason: Option<Seq<char>>,
    targets: Seq<QnameModel>,
    sql: Seq<char>,
) -> StepModel {
    unnumbered(kind, destructive, reason, targets, sql, TransactionConstraint::InTransaction)
}

/// A step that has not been numbered.
pub fn raw_step(
    kind: StepKind,
    destructive: bool,
    destructive_reason: Option<String>,
    targets: Vec<QualifiedName>,
    sql: String,
    transactional: TransactionConstraint,
) -> (step: RawStep)
    ensures
        step@ == unnumbered(
            kind,
            destructive,
            opt_text(destructive_reason),
            models(targets@),
            sql@,
            transactional,
        ),
{
    RawStep {
        step_no: 0,
        kind,
        destructive,
        destructive_reason,
        intent_id: None,
        targets,
        sql,
        transactional,
    }
}

/// Appends a step.
pub fn push_raw(out: &mut Vec<RawStep>, step: RawStep)
    ensures
        models(final(out)@) == models(old(out)@).push(step@),
{
    let ghost before = models(out@);
    out.push(step);
    assert(models(out@) =~= before.push(step@));
}

/// Appends a list of steps.
pub fn push_all(out: &mut Vec<RawStep>, steps: Vec<RawStep>)
    ensures
        models(final(out)@) == models(old(out)@) + models(steps@),
{
    let ghost before = models(out@);
    let mut rest = steps;
    out.append(&mut rest);
    assert(models(out@) =~= before + models(steps@));
}

/// Appends a step that has not been numbered.
pub fn push_step(
    out: &mut Vec<RawStep>,
    kind: StepKind,
    destructive: bool,
    destructive_reason: Option<String>,
    targets: Vec<QualifiedName>,
    sql: String,
    transactional: TransactionConstraint,
)
    ensures
        models(final(out)@) == models(old(out)@).push(
            unnumbered(
                kind,
                destructive,
                opt_text(destructive_reason),
                models(targets@),
                sql@,
                transactional,
            ),
        ),
{
    push_raw(out, raw_step(kind, destructive, destructive_reason, targets, sql, transactional));
}

/// Appends a step that needs no approval and runs inside a transaction.
pub fn push_safe(out: &mut Vec<RawStep>, kind: StepKind, targets: Vec<QualifiedName>, sql: String)
    ensures
        models(final(out)@) == models(old(out)@).push(safe_step(kind, models(targets@), sql@)),
{
    push_step(out, kind, false, None, targets, sql, TransactionConstraint::InTransaction);
}

/// Appends a step that runs inside a transaction.
pub fn push_gated(
    out: &mut Vec<RawStep>,
    kind: StepKind,
    destructive: bool,
    destructive_reason: Option<String>,
    targets: Vec<QualifiedName>,
    sql: String,
)
    ensures
        models(final(out)@) == models(old(out)@).push(
            gated_step(kind, destructive, opt_text(destructive_reason), models(targets@), sql@),
        ),
{
    push_step(
        out,
        kind,
        destructive,
        destructive_reason,
        targets,
        sql,
        TransactionConstraint::InTransaction,
    );
}

/// One target.
pub fn one_target(q: &QualifiedName) -> (targets: Vec<QualifiedName>)
    ensures
        models(targets@) == seq![q@],
{
    let mut targets: Vec<QualifiedName> = Vec::new();
    targets.push(crate::model::Duplicate::duplicate(q));
    assert(models(targets@) =~= seq![q@]);
    targets
}

/// Two targets.
pub fn two_targets(a: &QualifiedName, b: &QualifiedName) -> (targets: Vec<QualifiedName>)
    ensures
        models(targets@) == seq![a@, b@],
{
    let mut targets: Vec<QualifiedName> = Vec::new();
    targets.push(crate::model::Duplicate::duplicate(a));
    targets.push(crate::model::Duplicate::duplicate(b));
    assert(models(targets@) =~= seq![a@, b@]);
    targets
}

/// No targets.
pub fn no_targets() -> (targets: Vec<QualifiedName>)
    ensures
        models(targets@) == Seq::<QnameModel>::empty(),
{
    let targets: Vec<QualifiedName> = Vec::new();
    assert(models(targets@) =~= Seq::<QnameModel>::empty());
    targets
}

} // verus!
