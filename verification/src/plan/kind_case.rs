//! Names of step kinds in snake case.

use crate::identifier::fold_char;
use crate::plan::kind_names::kind_text;
use crate::plan::raw_step::StepKind;
use vstd::prelude::*;

verus! {

/// The name of the variant.
pub open spec fn variant_text(k: StepKind) -> Seq<char> {
    match k {
        StepKind::CreateSchema => "CreateSchema"@,
        StepKind::DropSchema => "DropSchema"@,
        StepKind::AlterSchemaComment => "AlterSchemaComment"@,
        StepKind::CreateTable => "CreateTable"@,
        StepKind::DropTable => "DropTable"@,
        StepKind::AlterTableSetComment => "AlterTableSetComment"@,
        StepKind::AlterTableSetTablespace => "AlterTableSetTablespace"@,
        StepKind::AddColumn => "AddColumn"@,
        StepKind::DropColumn => "DropColumn"@,
        StepKind::AlterColumnType => "AlterColumnType"@,
        StepKind::SetColumnNullable => "SetColumnNullable"@,
        StepKind::SetColumnDefault => "SetColumnDefault"@,
        StepKind::SetColumnComment => "SetColumnComment"@,
        StepKind::SetColumnIdentity => "SetColumnIdentity"@,
        StepKind::SetColumnGenerated => "SetColumnGenerated"@,
        StepKind::SetColumnStorage => "SetColumnStorage"@,
        StepKind::SetColumnCompression => "SetColumnCompression"@,
        StepKind::AddConstraint => "AddConstraint"@,
        StepKind::AddConstraintNotValid => "AddConstraintNotValid"@,
        StepKind::ValidateConstraint => "ValidateConstraint"@,
        StepKind::DropConstraint => "DropConstraint"@,
        StepKind::SetConstraintComment => "SetConstraintComment"@,
        StepKind::CreateIndex => "CreateIndex"@,
        StepKind::CreateIndexConcurrent => "CreateIndexConcurrent"@,
        StepKind::DropIndex => "DropIndex"@,
        StepKind::DropIndexConcurrent => "DropIndexConcurrent"@,
        StepKind::CreateSequence => "CreateSequence"@,
        StepKind::DropSequence => "DropSequence"@,
        StepKind::AlterSequence => "AlterSequence"@,
        StepKind::AddCheckForNotNull => "AddCheckForNotNull"@,
        StepKind::CreateView => "CreateView"@,
        StepKind::DropView => "DropView"@,
        StepKind::AlterViewSetCheckOption => "AlterViewSetCheckOption"@,
        StepKind::CreateMaterializedView => "CreateMaterializedView"@,
        StepKind::DropMaterializedView => "DropMaterializedView"@,
        StepKind::RefreshMaterializedView => "RefreshMaterializedView"@,
        StepKind::AlterViewSetReloption => "AlterViewSetReloption"@,
        StepKind::CommentOnView => "CommentOnView"@,
        StepKind::CreateType => "CreateType"@,
        StepKind::DropType => "DropType"@,
        StepKind::AlterTypeAddValue => "AlterTypeAddValue"@,
        StepKind::AlterTypeRenameValue => "AlterTypeRenameValue"@,
        StepKind::AlterDomainAddConstraint => "AlterDomainAddConstraint"@,
        StepKind::AlterDomainDropConstraint => "AlterDomainDropConstraint"@,
        StepKind::AlterDomainSetDefault => "AlterDomainSetDefault"@,
        StepKind::AlterDomainSetNotNull => "AlterDomainSetNotNull"@,
        StepKind::AlterTypeAddAttribute => "AlterTypeAddAttribute"@,
        StepKind::AlterTypeDropAttribute => "AlterTypeDropAttribute"@,
        StepKind::AlterTypeAlterAttributeType => "AlterTypeAlterAttributeType"@,
        StepKind::CommentOnType => "CommentOnType"@,
        StepKind::CreateOrReplaceFunction => "CreateOrReplaceFunction"@,
        StepKind::DropFunction => "DropFunction"@,
        StepKind::CommentOnFunction => "CommentOnFunction"@,
        StepKind::CreateOrReplaceProcedure => "CreateOrReplaceProcedure"@,
        StepKind::DropProcedure => "DropProcedure"@,
        StepKind::CommentOnProcedure => "CommentOnProcedure"@,
        StepKind::CreateExtension => "CreateExtension"@,
        StepKind::DropExtension => "DropExtension"@,
        StepKind::AlterExtensionUpdate => "AlterExtensionUpdate"@,
        StepKind::CommentOnExtension => "CommentOnExtension"@,
        StepKind::CreateTrigger => "CreateTrigger"@,
        StepKind::DropTrigger => "DropTrigger"@,
        StepKind::CommentOnTrigger => "CommentOnTrigger"@,
        StepKind::AttachPartition => "AttachPartition"@,
        StepKind::DetachPartition => "DetachPartition"@,
        StepKind::CreateRole => "CreateRole"@,
        StepKind::DropRole => "DropRole"@,
        StepKind::AlterRole => "AlterRole"@,
        StepKind::GrantRoleMembership => "GrantRoleMembership"@,
        StepKind::RevokeRoleMembership => "RevokeRoleMembership"@,
        StepKind::CommentOnRole => "CommentOnRole"@,
        StepKind::CreateTablespace => "CreateTablespace"@,
        StepKind::DropTablespace => "DropTablespace"@,
        StepKind::AlterTablespaceOwner => "AlterTablespaceOwner"@,
        StepKind::SetTablespaceOptions => "SetTablespaceOptions"@,
        StepKind::CommentOnTablespace => "CommentOnTablespace"@,
        StepKind::AlterObjectOwner => "AlterObjectOwner"@,
        StepKind::GrantObjectPrivilege => "GrantObjectPrivilege"@,
        StepKind::RevokeObjectPrivilege => "RevokeObjectPrivilege"@,
        StepKind::GrantColumnPrivilege => "GrantColumnPrivilege"@,
        StepKind::RevokeColumnPrivilege => "RevokeColumnPrivilege"@,
        StepKind::AlterDefaultPrivileges => "AlterDefaultPrivileges"@,
        StepKind::CreatePolicy => "CreatePolicy"@,
        StepKind::DropPolicy => "DropPolicy"@,
        StepKind::AlterPolicy => "AlterPolicy"@,
        StepKind::SetTableRowSecurity => "SetTableRowSecurity"@,
        StepKind::SetTableForceRowSecurity => "SetTableForceRowSecurity"@,
        StepKind::SetTableStorage => "SetTableStorage"@,
        StepKind::SetIndexStorage => "SetIndexStorage"@,
        StepKind::SetMaterializedViewStorage => "SetMaterializedViewStorage"@,
        StepKind::CreatePublication => "CreatePublication"@,
        StepKind::DropPublication => "DropPublication"@,
        StepKind::ReplacePublication => "ReplacePublication"@,
        StepKind::AlterPublicationAddTable => "AlterPublicationAddTable"@,
        StepKind::AlterPublicationDropTable => "AlterPublicationDropTable"@,
        StepKind::AlterPublicationSetTable => "AlterPublicationSetTable"@,
        StepKind::AlterPublicationAddSchema => "AlterPublicationAddSchema"@,
        StepKind::AlterPublicationDropSchema => "AlterPublicationDropSchema"@,
        StepKind::AlterPublicationSetPublish => "AlterPublicationSetPublish"@,
        StepKind::AlterPublicationSetViaRoot => "AlterPublicationSetViaRoot"@,
        StepKind::CommentOnPublication => "CommentOnPublication"@,
        StepKind::CreateSubscription => "CreateSubscription"@,
        StepKind::DropSubscription => "DropSubscription"@,
        StepKind::AlterSubscriptionConnection => "AlterSubscriptionConnection"@,
        StepKind::AlterSubscriptionAddPublication => "AlterSubscriptionAddPublication"@,
        StepKind::AlterSubscriptionDropPublication => "AlterSubscriptionDropPublication"@,
        StepKind::AlterSubscriptionSetOptions => "AlterSubscriptionSetOptions"@,
        StepKind::CommentOnSubscription => "CommentOnSubscription"@,
        StepKind::CreateStatistic => "CreateStatistic"@,
        StepKind::DropStatistic => "DropStatistic"@,
        StepKind::ReplaceStatistic => "ReplaceStatistic"@,
        StepKind::AlterStatisticSetTarget => "AlterStatisticSetTarget"@,
        StepKind::CommentOnStatistic => "CommentOnStatistic"@,
        StepKind::CreateCollation => "CreateCollation"@,
        StepKind::DropCollation => "DropCollation"@,
        StepKind::RenameCollation => "RenameCollation"@,
        StepKind::ReplaceCollation => "ReplaceCollation"@,
        StepKind::CommentOnCollation => "CommentOnCollation"@,
        StepKind::CreateEventTrigger => "CreateEventTrigger"@,
        StepKind::DropEventTrigger => "DropEventTrigger"@,
        StepKind::AlterEventTriggerEnable => "AlterEventTriggerEnable"@,
        StepKind::AlterEventTriggerOwner => "AlterEventTriggerOwner"@,
        StepKind::CommentOnEventTrigger => "CommentOnEventTrigger"@,
        StepKind::CreateAggregate => "CreateAggregate"@,
        StepKind::DropAggregate => "DropAggregate"@,
        StepKind::AlterAggregateOwner => "AlterAggregateOwner"@,
        StepKind::CommentOnAggregate => "CommentOnAggregate"@,
        StepKind::CreateCast => "CreateCast"@,
        StepKind::DropCast => "DropCast"@,
        StepKind::CommentOnCast => "CommentOnCast"@,
        StepKind::CreateTsDictionary => "CreateTsDictionary"@,
        StepKind::DropTsDictionary => "DropTsDictionary"@,
        StepKind::AlterTsDictionary => "AlterTsDictionary"@,
        StepKind::AlterTsDictionaryOwner => "AlterTsDictionaryOwner"@,
        StepKind::CommentOnTsDictionary => "CommentOnTsDictionary"@,
        StepKind::CreateTsConfiguration => "CreateTsConfiguration"@,
        StepKind::DropTsConfiguration => "DropTsConfiguration"@,
        StepKind::AddTsConfigMapping => "AddTsConfigMapping"@,
        StepKind::AlterTsConfigMapping => "AlterTsConfigMapping"@,
        StepKind::DropTsConfigMapping => "DropTsConfigMapping"@,
        StepKind::AlterTsConfigurationOwner => "AlterTsConfigurationOwner"@,
        StepKind::CommentOnTsConfiguration => "CommentOnTsConfiguration"@,
    }
}

/// An upper case ASCII letter.
pub open spec fn is_capital(c: char) -> bool {
    'A' <= c && c <= 'Z'
}

/// The first `n` characters in snake case: capitals in lower case, each but
/// one at the start behind an underscore.
pub open spec fn snake_case_of_first(s: Seq<char>, n: nat) -> Seq<char>
    decreases n,
{
    if n == 0 {
        Seq::empty()
    } else {
        let before = snake_case_of_first(s, (n - 1) as nat);
        let c = s[n - 1];
        if is_capital(c) && n > 1 {
            before.push('_').push(fold_char(c))
        } else {
            before.push(fold_char(c))
        }
    }
}

/// A name in snake case.
pub open spec fn snake_case(s: Seq<char>) -> Seq<char> {
    snake_case_of_first(s, s.len())
}

/// The `n` characters of `t` from `j` on are the word of `v` that starts at
/// `i` with a capital, in lower case.
spec fn is_word_at(v: Seq<char>, i: int, t: Seq<char>, j: int, n: int) -> bool {
    &&& 0 <= i && 0 <= j && 1 <= n && i + n <= v.len() && j + n <= t.len()
    &&& is_capital(v[i])
    &&& t[j] == fold_char(v[i])
    &&& forall|m: int| 1 <= m < n ==> t[j + m] == #[trigger] v[i + m]
    &&& forall|m: int| 1 <= m < n ==> !is_capital(#[trigger] v[i + m])
}

/// The word at the start.
proof fn lemma_first_word(v: Seq<char>, t: Seq<char>, n: int)
    requires
        is_word_at(v, 0, t, 0, n),
    ensures
        snake_case_of_first(v, n as nat) == t.take(n),
    decreases n,
{
    let before = snake_case_of_first(v, (n - 1) as nat);
    if n == 1 {
        assert(before =~= t.take(0));
    } else {
        lemma_first_word(v, t, n - 1);
        assert(t[0 + (n - 1)] == v[0 + (n - 1)]);
        assert(!is_capital(v[0 + (n - 1)]));
    }
    assert(t.take(n) =~= t.take(n - 1).push(t[n - 1]));
}

/// A word behind others, which `j` characters stand for.
proof fn lemma_next_word(v: Seq<char>, i: int, t: Seq<char>, j: int, n: int)
    requires
        0 < i,
        0 <= j,
        is_word_at(v, i, t, j + 1, n),
        t[j] == '_',
        snake_case_of_first(v, i as nat) == t.take(j),
    ensures
        snake_case_of_first(v, (i + n) as nat) == t.take(j + 1 + n),
    decreases n,
{
    if n == 1 {
        assert(t.take(j + 2) =~= t.take(j).push(t[j]).push(t[j + 1]));
    } else {
        lemma_next_word(v, i, t, j, n - 1);
        assert(t[j + 1 + (n - 1)] == v[i + (n - 1)]);
        assert(!is_capital(v[i + (n - 1)]));
        assert(t.take(j + 1 + n) =~= t.take(j + n).push(t[j + n]));
    }
}

/// The names of the kinds that create.
#[verifier::rlimit(30)]
proof fn lemma_create_names(k: StepKind)
    requires
        k is CreateSchema
            || k is CreateTable
            || k is CreateIndex
            || k is CreateIndexConcurrent
            || k is CreateSequence
            || k is CreateView
            || k is CreateMaterializedView
            || k is CreateType
            || k is CreateOrReplaceFunction
            || k is CreateOrReplaceProcedure
            || k is CreateExtension
            || k is CreateTrigger
            || k is CreateRole
            || k is CreateTablespace
            || k is CreatePolicy
            || k is CreatePublication
            || k is CreateSubscription
            || k is CreateStatistic
            || k is CreateCollation
            || k is CreateEventTrigger
            || k is CreateAggregate
            || k is CreateCast
            || k is CreateTsDictionary
            || k is CreateTsConfiguration,
    ensures
        kind_text(k) == snake_case(variant_text(k)),
{
    let v = variant_text(k);
    let t = kind_text(k);
    match k {
        StepKind::CreateSchema => {
            reveal_strlit("CreateSchema");
            reveal_strlit("create_schema");
            lemma_first_word(v, t, 6);
            lemma_next_word(v, 6, t, 6, 6);
        },
        StepKind::CreateTable => {
            reveal_strlit("CreateTable");
            reveal_strlit("create_table");
            lemma_first_word(v, t, 6);
            lemma_next_word(v, 6, t, 6, 5);
        },
        StepKind::CreateIndex => {
            reveal_strlit("CreateIndex");
            reveal_strlit("create_index");
            lemma_first_word(v, t, 6);
            lemma_next_word(v, 6, t, 6, 5);
        },
        StepKind::CreateIndexConcurrent => {
            reveal_strlit("CreateIndexConcurrent");
            reveal_strlit("create_index_concurrent");
            lemma_first_word(v, t, 6);
            lemma_next_word(v, 6, t, 6, 5);
            lemma_next_word(v, 11, t, 12, 10);
        },
        StepKind::CreateSequence => {
            reveal_strlit("CreateSequence");
            reveal_strlit("create_sequence");
            lemma_first_word(v, t, 6);
            lemma_next_word(v, 6, t, 6, 8);
        },
        StepKind::CreateView => {
            reveal_strlit("CreateView");
            reveal_strlit("create_view");
            lemma_first_word(v, t, 6);
            lemma_next_word(v, 6, t, 6, 4);
        },
        StepKind::CreateMaterializedView => {
            reveal_strlit("CreateMaterializedView");
            reveal_strlit("create_materialized_view");
            lemma_first_word(v, t, 6);
            lemma_next_word(v, 6, t, 6, 12);
            lemma_next_word(v, 18, t, 19, 4);
        },
        StepKind::CreateType => {
            reveal_strlit("CreateType");
            reveal_strlit("create_type");
            lemma_first_word(v, t, 6);
            lemma_next_word(v, 6, t, 6, 4);
        },
        StepKind::CreateOrReplaceFunction => {
            reveal_strlit("CreateOrReplaceFunction");
            reveal_strlit("create_or_replace_function");
            lemma_first_word(v, t, 6);
            lemma_next_word(v, 6, t, 6, 2);
            lemma_next_word(v, 8, t, 9, 7);
            lemma_next_word(v, 15, t, 17, 8);
        },
        StepKind::CreateOrReplaceProcedure => {
            reveal_strlit("CreateOrReplaceProcedure");
            reveal_strlit("create_or_replace_procedure");
            lemma_first_word(v, t, 6);
            lemma_next_word(v, 6, t, 6, 2);
            lemma_next_word(v, 8, t, 9, 7);
            lemma_next_word(v, 15, t, 17, 9);
        },
        StepKind::CreateExtension => {
            reveal_strlit("CreateExtension");
            reveal_strlit("create_extension");
            lemma_first_word(v, t, 6);
            lemma_next_word(v, 6, t, 6, 9);
        },
        StepKind::CreateTrigger => {
            reveal_strlit("CreateTrigger");
            reveal_strlit("create_trigger");
            lemma_first_word(v, t, 6);
            lemma_next_word(v, 6, t, 6, 7);
        },
        StepKind::CreateRole => {
            reveal_strlit("CreateRole");
            reveal_strlit("create_role");
            lemma_first_word(v, t, 6);
            lemma_next_word(v, 6, t, 6, 4);
        },
        StepKind::CreateTablespace => {
            reveal_strlit("CreateTablespace");
            reveal_strlit("create_tablespace");
            lemma_first_word(v, t, 6);
            lemma_next_word(v, 6, t, 6, 10);
        },
        StepKind::CreatePolicy => {
            reveal_strlit("CreatePolicy");
            reveal_strlit("create_policy");
            lemma_first_word(v, t, 6);
            lemma_next_word(v, 6, t, 6, 6);
        },
        StepKind::CreatePublication => {
            reveal_strlit("CreatePublication");
            reveal_strlit("create_publication");
            lemma_first_word(v, t, 6);
            lemma_next_word(v, 6, t, 6, 11);
        },
        StepKind::CreateSubscription => {
            reveal_strlit("CreateSubscription");
            reveal_strlit("create_subscription");
            lemma_first_word(v, t, 6);
            lemma_next_word(v, 6, t, 6, 12);
        },
        StepKind::CreateStatistic => {
            reveal_strlit("CreateStatistic");
            reveal_strlit("create_statistic");
            lemma_first_word(v, t, 6);
            lemma_next_word(v, 6, t, 6, 9);
        },
        StepKind::CreateCollation => {
            reveal_strlit("CreateCollation");
            reveal_strlit("create_collation");
            lemma_first_word(v, t, 6);
            lemma_next_word(v, 6, t, 6, 9);
        },
        StepKind::CreateEventTrigger => {
            reveal_strlit("CreateEventTrigger");
            reveal_strlit("create_event_trigger");
            lemma_first_word(v, t, 6);
            lemma_next_word(v, 6, t, 6, 5);
            lemma_next_word(v, 11, t, 12, 7);
        },
        StepKind::CreateAggregate => {
            reveal_strlit("CreateAggregate");
            reveal_strlit("create_aggregate");
            lemma_first_word(v, t, 6);
            lemma_next_word(v, 6, t, 6, 9);
        },
        StepKind::CreateCast => {
            reveal_strlit("CreateCast");
            reveal_strlit("create_cast");
            lemma_first_word(v, t, 6);
            lemma_next_word(v, 6, t, 6, 4);
        },
        StepKind::CreateTsDictionary => {
            reveal_strlit("CreateTsDictionary");
            reveal_strlit("create_ts_dictionary");
            lemma_first_word(v, t, 6);
            lemma_next_word(v, 6, t, 6, 2);
            lemma_next_word(v, 8, t, 9, 10);
        },
        StepKind::CreateTsConfiguration => {
            reveal_strlit("CreateTsConfiguration");
            reveal_strlit("create_ts_configuration");
            lemma_first_word(v, t, 6);
            lemma_next_word(v, 6, t, 6, 2);
            lemma_next_word(v, 8, t, 9, 13);
        },
        _ => {},
    }
    assert(t.take(t.len() as int) =~= t);
}

/// The names of the kinds that drop.
#[verifier::rlimit(30)]
proof fn lemma_drop_names(k: StepKind)
    requires
        k is DropSchema
            || k is DropTable
            || k is DropColumn
            || k is DropConstraint
            || k is DropIndex
            || k is DropIndexConcurrent
            || k is DropSequence
            || k is DropView
            || k is DropMaterializedView
            || k is DropType
            || k is DropFunction
            || k is DropProcedure
            || k is DropExtension
            || k is DropTrigger
            || k is DropRole
            || k is DropTablespace
            || k is DropPolicy
            || k is DropPublication
            || k is DropSubscription
            || k is DropStatistic
            || k is DropCollation
            || k is DropEventTrigger
            || k is DropAggregate
            || k is DropCast
            || k is DropTsDictionary
            || k is DropTsConfiguration
            || k is DropTsConfigMapping,
    ensures
        kind_text(k) == snake_case(variant_text(k)),
{
    let v = variant_text(k);
    let t = kind_text(k);
    match k {
        StepKind::DropSchema => {
            reveal_strlit("DropSchema");
            reveal_strlit("drop_schema");
            lemma_first_word(v, t, 4);
            lemma_next_word(v, 4, t, 4, 6);
        },
        StepKind::DropTable => {
            reveal_strlit("DropTable");
            reveal_strlit("drop_table");
            lemma_first_word(v, t, 4);
            lemma_next_word(v, 4, t, 4, 5);
        },
        StepKind::DropColumn => {
            reveal_strlit("DropColumn");
            reveal_strlit("drop_column");
            lemma_first_word(v, t, 4);
            lemma_next_word(v, 4, t, 4, 6);
        },
        StepKind::DropConstraint => {
            reveal_strlit("DropConstraint");
            reveal_strlit("drop_constraint");
            lemma_first_word(v, t, 4);
            lemma_next_word(v, 4, t, 4, 10);
        },
        StepKind::DropIndex => {
            reveal_strlit("DropIndex");
            reveal_strlit("drop_index");
            lemma_first_word(v, t, 4);
            lemma_next_word(v, 4, t, 4, 5);
        },
        StepKind::DropIndexConcurrent => {
            reveal_strlit("DropIndexConcurrent");
            reveal_strlit("drop_index_concurrent");
            lemma_first_word(v, t, 4);
            lemma_next_word(v, 4, t, 4, 5);
            lemma_next_word(v, 9, t, 10, 10);
        },
        StepKind::DropSequence => {
            reveal_strlit("DropSequence");
            reveal_strlit("drop_sequence");
            lemma_first_word(v, t, 4);
            lemma_next_word(v, 4, t, 4, 8);
        },
        StepKind::DropView => {
            reveal_strlit("DropView");
            reveal_strlit("drop_view");
            lemma_first_word(v, t, 4);
            lemma_next_word(v, 4, t, 4, 4);
        },
        StepKind::DropMaterializedView => {
            reveal_strlit("DropMaterializedView");
            reveal_strlit("drop_materialized_view");
            lemma_first_word(v, t, 4);
            lemma_next_word(v, 4, t, 4, 12);
            lemma_next_word(v, 16, t, 17, 4);
        },
        StepKind::DropType => {
            reveal_strlit("DropType");
            reveal_strlit("drop_type");
            lemma_first_word(v, t, 4);
            lemma_next_word(v, 4, t, 4, 4);
        },
        StepKind::DropFunction => {
            reveal_strlit("DropFunction");
            reveal_strlit("drop_function");
            lemma_first_word(v, t, 4);
            lemma_next_word(v, 4, t, 4, 8);
        },
        StepKind::DropProcedure => {
            reveal_strlit("DropProcedure");
            reveal_strlit("drop_procedure");
            lemma_first_word(v, t, 4);
            lemma_next_word(v, 4, t, 4, 9);
        },
        StepKind::DropExtension => {
            reveal_strlit("DropExtension");
            reveal_strlit("drop_extension");
            lemma_first_word(v, t, 4);
            lemma_next_word(v, 4, t, 4, 9);
        },
        StepKind::DropTrigger => {
            reveal_strlit("DropTrigger");
            reveal_strlit("drop_trigger");
            lemma_first_word(v, t, 4);
            lemma_next_word(v, 4, t, 4, 7);
        },
        StepKind::DropRole => {
            reveal_strlit("DropRole");
            reveal_strlit("drop_role");
            lemma_first_word(v, t, 4);
            lemma_next_word(v, 4, t, 4, 4);
        },
        StepKind::DropTablespace => {
            reveal_strlit("DropTablespace");
            reveal_strlit("drop_tablespace");
            lemma_first_word(v, t, 4);
            lemma_next_word(v, 4, t, 4, 10);
        },
        StepKind::DropPolicy => {
            reveal_strlit("DropPolicy");
            reveal_strlit("drop_policy");
            lemma_first_word(v, t, 4);
            lemma_next_word(v, 4, t, 4, 6);
        },
        StepKind::DropPublication => {
            reveal_strlit("DropPublication");
            reveal_strlit("drop_publication");
            lemma_first_word(v, t, 4);
            lemma_next_word(v, 4, t, 4, 11);
        },
        StepKind::DropSubscription => {
            reveal_strlit("DropSubscription");
            reveal_strlit("drop_subscription");
            lemma_first_word(v, t, 4);
            lemma_next_word(v, 4, t, 4, 12);
        },
        StepKind::DropStatistic => {
            reveal_strlit("DropStatistic");
            reveal_strlit("drop_statistic");
            lemma_first_word(v, t, 4);
            lemma_next_word(v, 4, t, 4, 9);
        },
        StepKind::DropCollation => {
            reveal_strlit("DropCollation");
            reveal_strlit("drop_collation");
            lemma_first_word(v, t, 4);
            lemma_next_word(v, 4, t, 4, 9);
        },
        StepKind::DropEventTrigger => {
            reveal_strlit("DropEventTrigger");
            reveal_strlit("drop_event_trigger");
            lemma_first_word(v, t, 4);
            lemma_next_word(v, 4, t, 4, 5);
            lemma_next_word(v, 9, t, 10, 7);
        },
        StepKind::DropAggregate => {
            reveal_strlit("DropAggregate");
            reveal_strlit("drop_aggregate");
            lemma_first_word(v, t, 4);
            lemma_next_word(v, 4, t, 4, 9);
        },
        StepKind::DropCast => {
            reveal_strlit("DropCast");
            reveal_strlit("drop_cast");
            lemma_first_word(v, t, 4);
            lemma_next_word(v, 4, t, 4, 4);
        },
        StepKind::DropTsDictionary => {
            reveal_strlit("DropTsDictionary");
            reveal_strlit("drop_ts_dictionary");
            lemma_first_word(v, t, 4);
            lemma_next_word(v, 4, t, 4, 2);
            lemma_next_word(v, 6, t, 7, 10);
        },
        StepKind::DropTsConfiguration => {
            reveal_strlit("DropTsConfiguration");
            reveal_strlit("drop_ts_configuration");
            lemma_first_word(v, t, 4);
            lemma_next_word(v, 4, t, 4, 2);
            lemma_next_word(v, 6, t, 7, 13);
        },
        StepKind::DropTsConfigMapping => {
            reveal_strlit("DropTsConfigMapping");
            reveal_strlit("drop_ts_config_mapping");
            lemma_first_word(v, t, 4);
            lemma_next_word(v, 4, t, 4, 2);
            lemma_next_word(v, 6, t, 7, 6);
            lemma_next_word(v, 12, t, 14, 7);
        },
        _ => {},
    }
    assert(t.take(t.len() as int) =~= t);
}

/// The names of the kinds that alter relations and types.
#[verifier::rlimit(30)]
proof fn lemma_alter_names(k: StepKind)
    requires
        k is AlterSchemaComment
            || k is AlterTableSetComment
            || k is AlterTableSetTablespace
            || k is AlterColumnType
            || k is AlterSequence
            || k is AlterViewSetCheckOption
            || k is AlterViewSetReloption
            || k is AlterTypeAddValue
            || k is AlterTypeRenameValue
            || k is AlterDomainAddConstraint
            || k is AlterDomainDropConstraint
            || k is AlterDomainSetDefault
            || k is AlterDomainSetNotNull
            || k is AlterTypeAddAttribute
            || k is AlterTypeDropAttribute
            || k is AlterTypeAlterAttributeType
            || k is AlterExtensionUpdate
            || k is AlterRole
            || k is AlterTablespaceOwner
            || k is AlterObjectOwner
            || k is AlterDefaultPrivileges
            || k is AlterPolicy,
    ensures
        kind_text(k) == snake_case(variant_text(k)),
{
    let v = variant_text(k);
    let t = kind_text(k);
    match k {
        StepKind::AlterSchemaComment => {
            reveal_strlit("AlterSchemaComment");
            reveal_strlit("alter_schema_comment");
            lemma_first_word(v, t, 5);
            lemma_next_word(v, 5, t, 5, 6);
            lemma_next_word(v, 11, t, 12, 7);
        },
        StepKind::AlterTableSetComment => {
            reveal_strlit("AlterTableSetComment");
            reveal_strlit("alter_table_set_comment");
            lemma_first_word(v, t, 5);
            lemma_next_word(v, 5, t, 5, 5);
            lemma_next_word(v, 10, t, 11, 3);
            lemma_next_word(v, 13, t, 15, 7);
        },
        StepKind::AlterTableSetTablespace => {
            reveal_strlit("AlterTableSetTablespace");
            reveal_strlit("alter_table_set_tablespace");
            lemma_first_word(v, t, 5);
            lemma_next_word(v, 5, t, 5, 5);
            lemma_next_word(v, 10, t, 11, 3);
            lemma_next_word(v, 13, t, 15, 10);
        },
        StepKind::AlterColumnType => {
            reveal_strlit("AlterColumnType");
            reveal_strlit("alter_column_type");
            lemma_first_word(v, t, 5);
            lemma_next_word(v, 5, t, 5, 6);
            lemma_next_word(v, 11, t, 12, 4);
        },
        StepKind::AlterSequence => {
            reveal_strlit("AlterSequence");
            reveal_strlit("alter_sequence");
            lemma_first_word(v, t, 5);
            lemma_next_word(v, 5, t, 5, 8);
        },
        StepKind::AlterViewSetCheckOption => {
            reveal_strlit("AlterViewSetCheckOption");
            reveal_strlit("alter_view_set_check_option");
            lemma_first_word(v, t, 5);
            lemma_next_word(v, 5, t, 5, 4);
            lemma_next_word(v, 9, t, 10, 3);
            lemma_next_word(v, 12, t, 14, 5);
            lemma_next_word(v, 17, t, 20, 6);
        },
        StepKind::AlterViewSetReloption => {
            reveal_strlit("AlterViewSetReloption");
            reveal_strlit("alter_view_set_reloption");
            lemma_first_word(v, t, 5);
            lemma_next_word(v, 5, t, 5, 4);
            lemma_next_word(v, 9, t, 10, 3);
            lemma_next_word(v, 12, t, 14, 9);
        },
        StepKind::AlterTypeAddValue => {
            reveal_strlit("AlterTypeAddValue");
            reveal_strlit("alter_type_add_value");
            lemma_first_word(v, t, 5);
            lemma_next_word(v, 5, t, 5, 4);
            lemma_next_word(v, 9, t, 10, 3);
            lemma_next_word(v, 12, t, 14, 5);
        },
        StepKind::AlterTypeRenameValue => {
            reveal_strlit("AlterTypeRenameValue");
            reveal_strlit("alter_type_rename_value");
            lemma_first_word(v, t, 5);
            lemma_next_word(v, 5, t, 5, 4);
            lemma_next_word(v, 9, t, 10, 6);
            lemma_next_word(v, 15, t, 17, 5);
        },
        StepKind::AlterDomainAddConstraint => {
            reveal_strlit("AlterDomainAddConstraint");
            reveal_strlit("alter_domain_add_constraint");
            lemma_first_word(v, t, 5);
            lemma_next_word(v, 5, t, 5, 6);
            lemma_next_word(v, 11, t, 12, 3);
            lemma_next_word(v, 14, t, 16, 10);
        },
        StepKind::AlterDomainDropConstraint => {
            reveal_strlit("AlterDomainDropConstraint");
            reveal_strlit("alter_domain_drop_constraint");
            lemma_first_word(v, t, 5);
            lemma_next_word(v, 5, t, 5, 6);
            lemma_next_word(v, 11, t, 12, 4);
            lemma_next_word(v, 15, t, 17, 10);
        },
        StepKind::AlterDomainSetDefault => {
            reveal_strlit("AlterDomainSetDefault");
            reveal_strlit("alter_domain_set_default");
            lemma_first_word(v, t, 5);
            lemma_next_word(v, 5, t, 5, 6);
            lemma_next_word(v, 11, t, 12, 3);
            lemma_next_word(v, 14, t, 16, 7);
        },
        StepKind::AlterDomainSetNotNull => {
            reveal_strlit("AlterDomainSetNotNull");
            reveal_strlit("alter_domain_set_not_null");
            lemma_first_word(v, t, 5);
            lemma_next_word(v, 5, t, 5, 6);
            lemma_next_word(v, 11, t, 12, 3);
            lemma_next_word(v, 14, t, 16, 3);
            lemma_next_word(v, 17, t, 20, 4);
        },
        StepKind::AlterTypeAddAttribute => {
            reveal_strlit("AlterTypeAddAttribute");
            reveal_strlit("alter_type_add_attribute");
            lemma_first_word(v, t, 5);
            lemma_next_word(v, 5, t, 5, 4);
            lemma_next_word(v, 9, t, 10, 3);
            lemma_next_word(v, 12, t, 14, 9);
        },
        StepKind::AlterTypeDropAttribute => {
            reveal_strlit("AlterTypeDropAttribute");
            reveal_strlit("alter_type_drop_attribute");
            lemma_first_word(v, t, 5);
            lemma_next_word(v, 5, t, 5, 4);
            lemma_next_word(v, 9, t, 10, 4);
            lemma_next_word(v, 13, t, 15, 9);
        },
        StepKind::AlterTypeAlterAttributeType => {
            reveal_strlit("AlterTypeAlterAttributeType");
            reveal_strlit("alter_type_alter_attribute_type");
            lemma_first_word(v, t, 5);
            lemma_next_word(v, 5, t, 5, 4);
            lemma_next_word(v, 9, t, 10, 5);
            lemma_next_word(v, 14, t, 16, 9);
            lemma_next_word(v, 23, t, 26, 4);
        },
        StepKind::AlterExtensionUpdate => {
            reveal_strlit("AlterExtensionUpdate");
            reveal_strlit("alter_extension_update");
            lemma_first_word(v, t, 5);
            lemma_next_word(v, 5, t, 5, 9);
            lemma_next_word(v, 14, t, 15, 6);
        },
        StepKind::AlterRole => {
            reveal_strlit("AlterRole");
            reveal_strlit("alter_role");
            lemma_first_word(v, t, 5);
            lemma_next_word(v, 5, t, 5, 4);
        },
        StepKind::AlterTablespaceOwner => {
            reveal_strlit("AlterTablespaceOwner");
            reveal_strlit("alter_tablespace_owner");
            lemma_first_word(v, t, 5);
            lemma_next_word(v, 5, t, 5, 10);
            lemma_next_word(v, 15, t, 16, 5);
        },
        StepKind::AlterObjectOwner => {
            reveal_strlit("AlterObjectOwner");
            reveal_strlit("alter_object_owner");
            lemma_first_word(v, t, 5);
            lemma_next_word(v, 5, t, 5, 6);
            lemma_next_word(v, 11, t, 12, 5);
        },
        StepKind::AlterDefaultPrivileges => {
            reveal_strlit("AlterDefaultPrivileges");
            reveal_strlit("alter_default_privileges");
            lemma_first_word(v, t, 5);
            lemma_next_word(v, 5, t, 5, 7);
            lemma_next_word(v, 12, t, 13, 10);
        },
        StepKind::AlterPolicy => {
            reveal_strlit("AlterPolicy");
            reveal_strlit("alter_policy");
            lemma_first_word(v, t, 5);
            lemma_next_word(v, 5, t, 5, 6);
        },
        _ => {},
    }
    assert(t.take(t.len() as int) =~= t);
}

/// The names of the remaining kinds.
#[verifier::rlimit(30)]
proof fn lemma_other_names(k: StepKind)
    requires
        k is AddColumn
            || k is AddConstraint
            || k is AddConstraintNotValid
            || k is ValidateConstraint
            || k is AddCheckForNotNull
            || k is RefreshMaterializedView
            || k is AttachPartition
            || k is DetachPartition
            || k is GrantRoleMembership
            || k is RevokeRoleMembership
            || k is GrantObjectPrivilege
            || k is RevokeObjectPrivilege
            || k is GrantColumnPrivilege
            || k is RevokeColumnPrivilege
            || k is ReplacePublication
            || k is ReplaceStatistic
            || k is RenameCollation
            || k is ReplaceCollation
            || k is AddTsConfigMapping,
    ensures
        kind_text(k) == snake_case(variant_text(k)),
{
    let v = variant_text(k);
    let t = kind_text(k);
    match k {
        StepKind::AddColumn => {
            reveal_strlit("AddColumn");
            reveal_strlit("add_column");
            lemma_first_word(v, t, 3);
            lemma_next_word(v, 3, t, 3, 6);
        },
        StepKind::AddConstraint => {
            reveal_strlit("AddConstraint");
            reveal_strlit("add_constraint");
            lemma_first_word(v, t, 3);
            lemma_next_word(v, 3, t, 3, 10);
        },
        StepKind::AddConstraintNotValid => {
            reveal_strlit("AddConstraintNotValid");
            reveal_strlit("add_constraint_not_valid");
            lemma_first_word(v, t, 3);
            lemma_next_word(v, 3, t, 3, 10);
            lemma_next_word(v, 13, t, 14, 3);
            lemma_next_word(v, 16, t, 18, 5);
        },
        StepKind::ValidateConstraint => {
            reveal_strlit("ValidateConstraint");
            reveal_strlit("validate_constraint");
            lemma_first_word(v, t, 8);
            lemma_next_word(v, 8, t, 8, 10);
        },
        StepKind::AddCheckForNotNull => {
            reveal_strlit("AddCheckForNotNull");
            reveal_strlit("add_check_for_not_null");
            lemma_first_word(v, t, 3);
            lemma_next_word(v, 3, t, 3, 5);
            lemma_next_word(v, 8, t, 9, 3);
            lemma_next_word(v, 11, t, 13, 3);
            lemma_next_word(v, 14, t, 17, 4);
        },
        StepKind::RefreshMaterializedView => {
            reveal_strlit("RefreshMaterializedView");
            reveal_strlit("refresh_materialized_view");
            lemma_first_word(v, t, 7);
            lemma_next_word(v, 7, t, 7, 12);
            lemma_next_word(v, 19, t, 20, 4);
        },
        StepKind::AttachPartition => {
            reveal_strlit("AttachPartition");
            reveal_strlit("attach_partition");
            lemma_first_word(v, t, 6);
            lemma_next_word(v, 6, t, 6, 9);
        },
        StepKind::DetachPartition => {
            reveal_strlit("DetachPartition");
            reveal_strlit("detach_partition");
            lemma_first_word(v, t, 6);
            lemma_next_word(v, 6, t, 6, 9);
        },
        StepKind::GrantRoleMembership => {
            reveal_strlit("GrantRoleMembership");
            reveal_strlit("grant_role_membership");
            lemma_first_word(v, t, 5);
            lemma_next_word(v, 5, t, 5, 4);
            lemma_next_word(v, 9, t, 10, 10);
        },
        StepKind::RevokeRoleMembership => {
            reveal_strlit("RevokeRoleMembership");
            reveal_strlit("revoke_role_membership");
            lemma_first_word(v, t, 6);
            lemma_next_word(v, 6, t, 6, 4);
            lemma_next_word(v, 10, t, 11, 10);
        },
        StepKind::GrantObjectPrivilege => {
            reveal_strlit("GrantObjectPrivilege");
            reveal_strlit("grant_object_privilege");
            lemma_first_word(v, t, 5);
            lemma_next_word(v, 5, t, 5, 6);
            lemma_next_word(v, 11, t, 12, 9);
        },
        StepKind::RevokeObjectPrivilege => {
            reveal_strlit("RevokeObjectPrivilege");
            reveal_strlit("revoke_object_privilege");
            lemma_first_word(v, t, 6);
            lemma_next_word(v, 6, t, 6, 6);
            lemma_next_word(v, 12, t, 13, 9);
        },
        StepKind::GrantColumnPrivilege => {
            reveal_strlit("GrantColumnPrivilege");
            reveal_strlit("grant_column_privilege");
            lemma_first_word(v, t, 5);
            lemma_next_word(v, 5, t, 5, 6);
            lemma_next_word(v, 11, t, 12, 9);
        },
        StepKind::RevokeColumnPrivilege => {
            reveal_strlit("RevokeColumnPrivilege");
            reveal_strlit("revoke_column_privilege");
            lemma_first_word(v, t, 6);
            lemma_next_word(v, 6, t, 6, 6);
            lemma_next_word(v, 12, t, 13, 9);
        },
        StepKind::ReplacePublication => {
            reveal_strlit("ReplacePublication");
            reveal_strlit("replace_publication");
            lemma_first_word(v, t, 7);
            lemma_next_word(v, 7, t, 7, 11);
        },
        StepKind::ReplaceStatistic => {
            reveal_strlit("ReplaceStatistic");
            reveal_strlit("replace_statistic");
            lemma_first_word(v, t, 7);
            lemma_next_word(v, 7, t, 7, 9);
        },
        StepKind::RenameCollation => {
            reveal_strlit("RenameCollation");
            reveal_strlit("rename_collation");
            lemma_first_word(v, t, 6);
            lemma_next_word(v, 6, t, 6, 9);
        },
        StepKind::ReplaceCollation => {
            reveal_strlit("ReplaceCollation");
            reveal_strlit("replace_collation");
            lemma_first_word(v, t, 7);
            lemma_next_word(v, 7, t, 7, 9);
        },
        StepKind::AddTsConfigMapping => {
            reveal_strlit("AddTsConfigMapping");
            reveal_strlit("add_ts_config_mapping");
            lemma_first_word(v, t, 3);
            lemma_next_word(v, 3, t, 3, 2);
            lemma_next_word(v, 5, t, 6, 6);
            lemma_next_word(v, 11, t, 13, 7);
        },
        _ => {},
    }
    assert(t.take(t.len() as int) =~= t);
}

/// The names of the kinds that set a property.
#[verifier::rlimit(30)]
proof fn lemma_set_names(k: StepKind)
    requires
        k is SetColumnNullable
            || k is SetColumnDefault
            || k is SetColumnComment
            || k is SetColumnIdentity
            || k is SetColumnGenerated
            || k is SetColumnStorage
            || k is SetColumnCompression
            || k is SetConstraintComment
            || k is SetTablespaceOptions
            || k is SetTableRowSecurity
            || k is SetTableForceRowSecurity
            || k is SetTableStorage
            || k is SetIndexStorage
            || k is SetMaterializedViewStorage,
    ensures
        kind_text(k) == snake_case(variant_text(k)),
{
    let v = variant_text(k);
    let t = kind_text(k);
    match k {
        StepKind::SetColumnNullable => {
            reveal_strlit("SetColumnNullable");
            reveal_strlit("set_column_nullable");
            lemma_first_word(v, t, 3);
            lemma_next_word(v, 3, t, 3, 6);
            lemma_next_word(v, 9, t, 10, 8);
        },
        StepKind::SetColumnDefault => {
            reveal_strlit("SetColumnDefault");
            reveal_strlit("set_column_default");
            lemma_first_word(v, t, 3);
            lemma_next_word(v, 3, t, 3, 6);
            lemma_next_word(v, 9, t, 10, 7);
        },
        StepKind::SetColumnComment => {
            reveal_strlit("SetColumnComment");
            reveal_strlit("set_column_comment");
            lemma_first_word(v, t, 3);
            lemma_next_word(v, 3, t, 3, 6);
            lemma_next_word(v, 9, t, 10, 7);
        },
        StepKind::SetColumnIdentity => {
            reveal_strlit("SetColumnIdentity");
            reveal_strlit("set_column_identity");
            lemma_first_word(v, t, 3);
            lemma_next_word(v, 3, t, 3, 6);
            lemma_next_word(v, 9, t, 10, 8);
        },
        StepKind::SetColumnGenerated => {
            reveal_strlit("SetColumnGenerated");
            reveal_strlit("set_column_generated");
            lemma_first_word(v, t, 3);
            lemma_next_word(v, 3, t, 3, 6);
            lemma_next_word(v, 9, t, 10, 9);
        },
        StepKind::SetColumnStorage => {
            reveal_strlit("SetColumnStorage");
            reveal_strlit("set_column_storage");
            lemma_first_word(v, t, 3);
            lemma_next_word(v, 3, t, 3, 6);
            lemma_next_word(v, 9, t, 10, 7);
        },
        StepKind::SetColumnCompression => {
            reveal_strlit("SetColumnCompression");
            reveal_strlit("set_column_compression");
            lemma_first_word(v, t, 3);
            lemma_next_word(v, 3, t, 3, 6);
            lemma_next_word(v, 9, t, 10, 11);
        },
        StepKind::SetConstraintComment => {
            reveal_strlit("SetConstraintComment");
            reveal_strlit("set_constraint_comment");
            lemma_first_word(v, t, 3);
            lemma_next_word(v, 3, t, 3, 10);
            lemma_next_word(v, 13, t, 14, 7);
        },
        StepKind::SetTablespaceOptions => {
            reveal_strlit("SetTablespaceOptions");
            reveal_strlit("set_tablespace_options");
            lemma_first_word(v, t, 3);
            lemma_next_word(v, 3, t, 3, 10);
            lemma_next_word(v, 13, t, 14, 7);
        },
        StepKind::SetTableRowSecurity => {
            reveal_strlit("SetTableRowSecurity");
            reveal_strlit("set_table_row_security");
            lemma_first_word(v, t, 3);
            lemma_next_word(v, 3, t, 3, 5);
            lemma_next_word(v, 8, t, 9, 3);
            lemma_next_word(v, 11, t, 13, 8);
        },
        StepKind::SetTableForceRowSecurity => {
            reveal_strlit("SetTableForceRowSecurity");
            reveal_strlit("set_table_force_row_security");
            lemma_first_word(v, t, 3);
            lemma_next_word(v, 3, t, 3, 5);
            lemma_next_word(v, 8, t, 9, 5);
            lemma_next_word(v, 13, t, 15, 3);
            lemma_next_word(v, 16, t, 19, 8);
        },
        StepKind::SetTableStorage => {
            reveal_strlit("SetTableStorage");
            reveal_strlit("set_table_storage");
            lemma_first_word(v, t, 3);
            lemma_next_word(v, 3, t, 3, 5);
            lemma_next_word(v, 8, t, 9, 7);
        },
        StepKind::SetIndexStorage => {
            reveal_strlit("SetIndexStorage");
            reveal_strlit("set_index_storage");
            lemma_first_word(v, t, 3);
            lemma_next_word(v, 3, t, 3, 5);
            lemma_next_word(v, 8, t, 9, 7);
        },
        StepKind::SetMaterializedViewStorage => {
            reveal_strlit("SetMaterializedViewStorage");
            reveal_strlit("set_materialized_view_storage");
            lemma_first_word(v, t, 3);
            lemma_next_word(v, 3, t, 3, 12);
            lemma_next_word(v, 15, t, 16, 4);
            lemma_next_word(v, 19, t, 21, 7);
        },
        _ => {},
    }
    assert(t.take(t.len() as int) =~= t);
}

/// The names of the kinds that comment.
#[verifier::rlimit(30)]
proof fn lemma_comment_names(k: StepKind)
    requires
        k is CommentOnView
            || k is CommentOnType
            || k is CommentOnFunction
            || k is CommentOnProcedure
            || k is CommentOnExtension
            || k is CommentOnTrigger
            || k is CommentOnRole
            || k is CommentOnTablespace
            || k is CommentOnPublication
            || k is CommentOnSubscription
            || k is CommentOnStatistic
            || k is CommentOnCollation
            || k is CommentOnEventTrigger
            || k is CommentOnAggregate
            || k is CommentOnCast
            || k is CommentOnTsDictionary
            || k is CommentOnTsConfiguration,
    ensures
        kind_text(k) == snake_case(variant_text(k)),
{
    let v = variant_text(k);
    let t = kind_text(k);
    match k {
        StepKind::CommentOnView => {
            reveal_strlit("CommentOnView");
            reveal_strlit("comment_on_view");
            lemma_first_word(v, t, 7);
            lemma_next_word(v, 7, t, 7, 2);
            lemma_next_word(v, 9, t, 10, 4);
        },
        StepKind::CommentOnType => {
            reveal_strlit("CommentOnType");
            reveal_strlit("comment_on_type");
            lemma_first_word(v, t, 7);
            lemma_next_word(v, 7, t, 7, 2);
            lemma_next_word(v, 9, t, 10, 4);
        },
        StepKind::CommentOnFunction => {
            reveal_strlit("CommentOnFunction");
            reveal_strlit("comment_on_function");
            lemma_first_word(v, t, 7);
            lemma_next_word(v, 7, t, 7, 2);
            lemma_next_word(v, 9, t, 10, 8);
        },
        StepKind::CommentOnProcedure => {
            reveal_strlit("CommentOnProcedure");
            reveal_strlit("comment_on_procedure");
            lemma_first_word(v, t, 7);
            lemma_next_word(v, 7, t, 7, 2);
            lemma_next_word(v, 9, t, 10, 9);
        },
        StepKind::CommentOnExtension => {
            reveal_strlit("CommentOnExtension");
            reveal_strlit("comment_on_extension");
            lemma_first_word(v, t, 7);
            lemma_next_word(v, 7, t, 7, 2);
            lemma_next_word(v, 9, t, 10, 9);
        },
        StepKind::CommentOnTrigger => {
            reveal_strlit("CommentOnTrigger");
            reveal_strlit("comment_on_trigger");
            lemma_first_word(v, t, 7);
            lemma_next_word(v, 7, t, 7, 2);
            lemma_next_word(v, 9, t, 10, 7);
        },
        StepKind::CommentOnRole => {
            reveal_strlit("CommentOnRole");
            reveal_strlit("comment_on_role");
            lemma_first_word(v, t, 7);
            lemma_next_word(v, 7, t, 7, 2);
            lemma_next_word(v, 9, t, 10, 4);
        },
        StepKind::CommentOnTablespace => {
            reveal_strlit("CommentOnTablespace");
            reveal_strlit("comment_on_tablespace");
            lemma_first_word(v, t, 7);
            lemma_next_word(v, 7, t, 7, 2);
            lemma_next_word(v, 9, t, 10, 10);
        },
        StepKind::CommentOnPublication => {
            reveal_strlit("CommentOnPublication");
            reveal_strlit("comment_on_publication");
            lemma_first_word(v, t, 7);
            lemma_next_word(v, 7, t, 7, 2);
            lemma_next_word(v, 9, t, 10, 11);
        },
        StepKind::CommentOnSubscription => {
            reveal_strlit("CommentOnSubscription");
            reveal_strlit("comment_on_subscription");
            lemma_first_word(v, t, 7);
            lemma_next_word(v, 7, t, 7, 2);
            lemma_next_word(v, 9, t, 10, 12);
        },
        StepKind::CommentOnStatistic => {
            reveal_strlit("CommentOnStatistic");
            reveal_strlit("comment_on_statistic");
            lemma_first_word(v, t, 7);
            lemma_next_word(v, 7, t, 7, 2);
            lemma_next_word(v, 9, t, 10, 9);
        },
        StepKind::CommentOnCollation => {
            reveal_strlit("CommentOnCollation");
            reveal_strlit("comment_on_collation");
            lemma_first_word(v, t, 7);
            lemma_next_word(v, 7, t, 7, 2);
            lemma_next_word(v, 9, t, 10, 9);
        },
        StepKind::CommentOnEventTrigger => {
            reveal_strlit("CommentOnEventTrigger");
            reveal_strlit("comment_on_event_trigger");
            lemma_first_word(v, t, 7);
            lemma_next_word(v, 7, t, 7, 2);
            lemma_next_word(v, 9, t, 10, 5);
            lemma_next_word(v, 14, t, 16, 7);
        },
        StepKind::CommentOnAggregate => {
            reveal_strlit("CommentOnAggregate");
            reveal_strlit("comment_on_aggregate");
            lemma_first_word(v, t, 7);
            lemma_next_word(v, 7, t, 7, 2);
            lemma_next_word(v, 9, t, 10, 9);
        },
        StepKind::CommentOnCast => {
            reveal_strlit("CommentOnCast");
            reveal_strlit("comment_on_cast");
            lemma_first_word(v, t, 7);
            lemma_next_word(v, 7, t, 7, 2);
            lemma_next_word(v, 9, t, 10, 4);
        },
        StepKind::CommentOnTsDictionary => {
            reveal_strlit("CommentOnTsDictionary");
            reveal_strlit("comment_on_ts_dictionary");
            lemma_first_word(v, t, 7);
            lemma_next_word(v, 7, t, 7, 2);
            lemma_next_word(v, 9, t, 10, 2);
            lemma_next_word(v, 11, t, 13, 10);
        },
        StepKind::CommentOnTsConfiguration => {
            reveal_strlit("CommentOnTsConfiguration");
            reveal_strlit("comment_on_ts_configuration");
            lemma_first_word(v, t, 7);
            lemma_next_word(v, 7, t, 7, 2);
            lemma_next_word(v, 9, t, 10, 2);
            lemma_next_word(v, 11, t, 13, 13);
        },
        _ => {},
    }
    assert(t.take(t.len() as int) =~= t);
}

/// The names of the kinds that alter other objects.
#[verifier::rlimit(30)]
proof fn lemma_alter_object_names(k: StepKind)
    requires
        k is AlterPublicationAddTable
            || k is AlterPublicationDropTable
            || k is AlterPublicationSetTable
            || k is AlterPublicationAddSchema
            || k is AlterPublicationDropSchema
            || k is AlterPublicationSetPublish
            || k is AlterPublicationSetViaRoot
            || k is AlterSubscriptionConnection
            || k is AlterSubscriptionAddPublication
            || k is AlterSubscriptionDropPublication
            || k is AlterSubscriptionSetOptions
            || k is AlterStatisticSetTarget
            || k is AlterEventTriggerEnable
            || k is AlterEventTriggerOwner
            || k is AlterAggregateOwner
            || k is AlterTsDictionary
            || k is AlterTsDictionaryOwner
            || k is AlterTsConfigMapping
            || k is AlterTsConfigurationOwner,
    ensures
        kind_text(k) == snake_case(variant_text(k)),
{
    let v = variant_text(k);
    let t = kind_text(k);
    match k {
        StepKind::AlterPublicationAddTable => {
            reveal_strlit("AlterPublicationAddTable");
            reveal_strlit("alter_publication_add_table");
            lemma_first_word(v, t, 5);
            lemma_next_word(v, 5, t, 5, 11);
            lemma_next_word(v, 16, t, 17, 3);
            lemma_next_word(v, 19, t, 21, 5);
        },
        StepKind::AlterPublicationDropTable => {
            reveal_strlit("AlterPublicationDropTable");
            reveal_strlit("alter_publication_drop_table");
            lemma_first_word(v, t, 5);
            lemma_next_word(v, 5, t, 5, 11);
            lemma_next_word(v, 16, t, 17, 4);
            lemma_next_word(v, 20, t, 22, 5);
        },
        StepKind::AlterPublicationSetTable => {
            reveal_strlit("AlterPublicationSetTable");
            reveal_strlit("alter_publication_set_table");
            lemma_first_word(v, t, 5);
            lemma_next_word(v, 5, t, 5, 11);
            lemma_next_word(v, 16, t, 17, 3);
            lemma_next_word(v, 19, t, 21, 5);
        },
        StepKind::AlterPublicationAddSchema => {
            reveal_strlit("AlterPublicationAddSchema");
            reveal_strlit("alter_publication_add_schema");
            lemma_first_word(v, t, 5);
            lemma_next_word(v, 5, t, 5, 11);
            lemma_next_word(v, 16, t, 17, 3);
            lemma_next_word(v, 19, t, 21, 6);
        },
        StepKind::AlterPublicationDropSchema => {
            reveal_strlit("AlterPublicationDropSchema");
            reveal_strlit("alter_publication_drop_schema");
            lemma_first_word(v, t, 5);
            lemma_next_word(v, 5, t, 5, 11);
            lemma_next_word(v, 16, t, 17, 4);
            lemma_next_word(v, 20, t, 22, 6);
        },
        StepKind::AlterPublicationSetPublish => {
            reveal_strlit("AlterPublicationSetPublish");
            reveal_strlit("alter_publication_set_publish");
            lemma_first_word(v, t, 5);
            lemma_next_word(v, 5, t, 5, 11);
            lemma_next_word(v, 16, t, 17, 3);
            lemma_next_word(v, 19, t, 21, 7);
        },
        StepKind::AlterPublicationSetViaRoot => {
            reveal_strlit("AlterPublicationSetViaRoot");
            reveal_strlit("alter_publication_set_via_root");
            lemma_first_word(v, t, 5);
            lemma_next_word(v, 5, t, 5, 11);
            lemma_next_word(v, 16, t, 17, 3);
            lemma_next_word(v, 19, t, 21, 3);
            lemma_next_word(v, 22, t, 25, 4);
        },
        StepKind::AlterSubscriptionConnection => {
            reveal_strlit("AlterSubscriptionConnection");
            reveal_strlit("alter_subscription_connection");
            lemma_first_word(v, t, 5);
            lemma_next_word(v, 5, t, 5, 12);
            lemma_next_word(v, 17, t, 18, 10);
        },
        StepKind::AlterSubscriptionAddPublication => {
            reveal_strlit("AlterSubscriptionAddPublication");
            reveal_strlit("alter_subscription_add_publication");
            lemma_first_word(v, t, 5);
            lemma_next_word(v, 5, t, 5, 12);
            lemma_next_word(v, 17, t, 18, 3);
            lemma_next_word(v, 20, t, 22, 11);
        },
        StepKind::AlterSubscriptionDropPublication => {
            reveal_strlit("AlterSubscriptionDropPublication");
            reveal_strlit("alter_subscription_drop_publication");
            lemma_first_word(v, t, 5);
            lemma_next_word(v, 5, t, 5, 12);
            lemma_next_word(v, 17, t, 18, 4);
            lemma_next_word(v, 21, t, 23, 11);
        },
        StepKind::AlterSubscriptionSetOptions => {
            reveal_strlit("AlterSubscriptionSetOptions");
            reveal_strlit("alter_subscription_set_options");
            lemma_first_word(v, t, 5);
            lemma_next_word(v, 5, t, 5, 12);
            lemma_next_word(v, 17, t, 18, 3);
            lemma_next_word(v, 20, t, 22, 7);
        },
        StepKind::AlterStatisticSetTarget => {
            reveal_strlit("AlterStatisticSetTarget");
            reveal_strlit("alter_statistic_set_target");
            lemma_first_word(v, t, 5);
            lemma_next_word(v, 5, t, 5, 9);
            lemma_next_word(v, 14, t, 15, 3);
            lemma_next_word(v, 17, t, 19, 6);
        },
        StepKind::AlterEventTriggerEnable => {
            reveal_strlit("AlterEventTriggerEnable");
            reveal_strlit("alter_event_trigger_enable");
            lemma_first_word(v, t, 5);
            lemma_next_word(v, 5, t, 5, 5);
            lemma_next_word(v, 10, t, 11, 7);
            lemma_next_word(v, 17, t, 19, 6);
        },
        StepKind::AlterEventTriggerOwner => {
            reveal_strlit("AlterEventTriggerOwner");
            reveal_strlit("alter_event_trigger_owner");
            lemma_first_word(v, t, 5);
            lemma_next_word(v, 5, t, 5, 5);
            lemma_next_word(v, 10, t, 11, 7);
            lemma_next_word(v, 17, t, 19, 5);
        },
        StepKind::AlterAggregateOwner => {
            reveal_strlit("AlterAggregateOwner");
            reveal_strlit("alter_aggregate_owner");
            lemma_first_word(v, t, 5);
            lemma_next_word(v, 5, t, 5, 9);
            lemma_next_word(v, 14, t, 15, 5);
        },
        StepKind::AlterTsDictionary => {
            reveal_strlit("AlterTsDictionary");
            reveal_strlit("alter_ts_dictionary");
            lemma_first_word(v, t, 5);
            lemma_next_word(v, 5, t, 5, 2);
            lemma_next_word(v, 7, t, 8, 10);
        },
        StepKind::AlterTsDictionaryOwner => {
            reveal_strlit("AlterTsDictionaryOwner");
            reveal_strlit("alter_ts_dictionary_owner");
            lemma_first_word(v, t, 5);
            lemma_next_word(v, 5, t, 5, 2);
            lemma_next_word(v, 7, t, 8, 10);
            lemma_next_word(v, 17, t, 19, 5);
        },
        StepKind::AlterTsConfigMapping => {
            reveal_strlit("AlterTsConfigMapping");
            reveal_strlit("alter_ts_config_mapping");
            lemma_first_word(v, t, 5);
            lemma_next_word(v, 5, t, 5, 2);
            lemma_next_word(v, 7, t, 8, 6);
            lemma_next_word(v, 13, t, 15, 7);
        },
        StepKind::AlterTsConfigurationOwner => {
            reveal_strlit("AlterTsConfigurationOwner");
            reveal_strlit("alter_ts_configuration_owner");
            lemma_first_word(v, t, 5);
            lemma_next_word(v, 5, t, 5, 2);
            lemma_next_word(v, 7, t, 8, 13);
            lemma_next_word(v, 20, t, 22, 5);
        },
        _ => {},
    }
    assert(t.take(t.len() as int) =~= t);
}

/// A kind is named by its variant's name in snake case.
pub proof fn law_kind_names_are_snake_case(k: StepKind)
    ensures
        kind_text(k) == snake_case(variant_text(k)),
{
    match k {
        StepKind::CreateSchema
        | StepKind::CreateTable
        | StepKind::CreateIndex
        | StepKind::CreateIndexConcurrent
        | StepKind::CreateSequence
        | StepKind::CreateView
        | StepKind::CreateMaterializedView
        | StepKind::CreateType
        | StepKind::CreateOrReplaceFunction
        | StepKind::CreateOrReplaceProcedure
        | StepKind::CreateExtension
        | StepKind::CreateTrigger
        | StepKind::CreateRole
        | StepKind::CreateTablespace
        | StepKind::CreatePolicy
        | StepKind::CreatePublication
        | StepKind::CreateSubscription
        | StepKind::CreateStatistic
        | StepKind::CreateCollation
        | StepKind::CreateEventTrigger
        | StepKind::CreateAggregate
        | StepKind::CreateCast
        | StepKind::CreateTsDictionary
        | StepKind::CreateTsConfiguration => lemma_create_names(k),
        StepKind::DropSchema
        | StepKind::DropTable
        | StepKind::DropColumn
        | StepKind::DropConstraint
        | StepKind::DropIndex
        | StepKind::DropIndexConcurrent
        | StepKind::DropSequence
        | StepKind::DropView
        | StepKind::DropMaterializedView
        | StepKind::DropType
        | StepKind::DropFunction
        | StepKind::DropProcedure
        | StepKind::DropExtension
        | StepKind::DropTrigger
        | StepKind::DropRole
        | StepKind::DropTablespace
        | StepKind::DropPolicy
        | StepKind::DropPublication
        | StepKind::DropSubscription
        | StepKind::DropStatistic
        | StepKind::DropCollation
        | StepKind::DropEventTrigger
        | StepKind::DropAggregate
        | StepKind::DropCast
        | StepKind::DropTsDictionary
        | StepKind::DropTsConfiguration
        | StepKind::DropTsConfigMapping => lemma_drop_names(k),
        StepKind::AlterSchemaComment
        | StepKind::AlterTableSetComment
        | StepKind::AlterTableSetTablespace
        | StepKind::AlterColumnType
        | StepKind::AlterSequence
        | StepKind::AlterViewSetCheckOption
        | StepKind::AlterViewSetReloption
        | StepKind::AlterTypeAddValue
        | StepKind::AlterTypeRenameValue
        | StepKind::AlterDomainAddConstraint
        | StepKind::AlterDomainDropConstraint
        | StepKind::AlterDomainSetDefault
        | StepKind::AlterDomainSetNotNull
        | StepKind::AlterTypeAddAttribute
        | StepKind::AlterTypeDropAttribute
        | StepKind::AlterTypeAlterAttributeType
        | StepKind::AlterExtensionUpdate
        | StepKind::AlterRole
        | StepKind::AlterTablespaceOwner
        | StepKind::AlterObjectOwner
        | StepKind::AlterDefaultPrivileges
        | StepKind::AlterPolicy => lemma_alter_names(k),
        StepKind::AddColumn
        | StepKind::AddConstraint
        | StepKind::AddConstraintNotValid
        | StepKind::ValidateConstraint
        | StepKind::AddCheckForNotNull
        | StepKind::RefreshMaterializedView
        | StepKind::AttachPartition
        | StepKind::DetachPartition
        | StepKind::GrantRoleMembership
        | StepKind::RevokeRoleMembership
        | StepKind::GrantObjectPrivilege
        | StepKind::RevokeObjectPrivilege
        | StepKind::GrantColumnPrivilege
        | StepKind::RevokeColumnPrivilege
        | StepKind::ReplacePublication
        | StepKind::ReplaceStatistic
        | StepKind::RenameCollation
        | StepKind::ReplaceCollation
        | StepKind::AddTsConfigMapping => lemma_other_names(k),
        StepKind::SetColumnNullable
        | StepKind::SetColumnDefault
        | StepKind::SetColumnComment
        | StepKind::SetColumnIdentity
        | StepKind::SetColumnGenerated
        | StepKind::SetColumnStorage
        | StepKind::SetColumnCompression
        | StepKind::SetConstraintComment
        | StepKind::SetTablespaceOptions
        | StepKind::SetTableRowSecurity
        | StepKind::SetTableForceRowSecurity
        | StepKind::SetTableStorage
        | StepKind::SetIndexStorage
        | StepKind::SetMaterializedViewStorage => lemma_set_names(k),
        StepKind::CommentOnView
        | StepKind::CommentOnType
        | StepKind::CommentOnFunction
        | StepKind::CommentOnProcedure
        | StepKind::CommentOnExtension
        | StepKind::CommentOnTrigger
        | StepKind::CommentOnRole
        | StepKind::CommentOnTablespace
        | StepKind::CommentOnPublication
        | StepKind::CommentOnSubscription
        | StepKind::CommentOnStatistic
        | StepKind::CommentOnCollation
        | StepKind::CommentOnEventTrigger
        | StepKind::CommentOnAggregate
        | StepKind::CommentOnCast
        | StepKind::CommentOnTsDictionary
        | StepKind::CommentOnTsConfiguration => lemma_comment_names(k),
        StepKind::AlterPublicationAddTable
        | StepKind::AlterPublicationDropTable
        | StepKind::AlterPublicationSetTable
        | StepKind::AlterPublicationAddSchema
        | StepKind::AlterPublicationDropSchema
        | StepKind::AlterPublicationSetPublish
        | StepKind::AlterPublicationSetViaRoot
        | StepKind::AlterSubscriptionConnection
        | StepKind::AlterSubscriptionAddPublication
        | StepKind::AlterSubscriptionDropPublication
        | StepKind::AlterSubscriptionSetOptions
        | StepKind::AlterStatisticSetTarget
        | StepKind::AlterEventTriggerEnable
        | StepKind::AlterEventTriggerOwner
        | StepKind::AlterAggregateOwner
        | StepKind::AlterTsDictionary
        | StepKind::AlterTsDictionaryOwner
        | StepKind::AlterTsConfigMapping
        | StepKind::AlterTsConfigurationOwner => lemma_alter_object_names(k),
    }
}

} // verus!
