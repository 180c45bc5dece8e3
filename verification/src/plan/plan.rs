//! The plan: transaction groups with numbered steps, the destructive intents,
//! and what is needed to write it to disk and read it back.
//!
//! A [`PlanId`] is a 32-byte BLAKE3 digest over the serialized source catalog,
//! the serialized target catalog, the version and the ruleset version.
//! Identical inputs always give the same id, on every run and every machine.

use crate::digest::{blake3_digest, blake3_hash};
use crate::hexadecimal::{
    all_lower_digits, hex_bytes, hex_decode, hex_encode, hex_fault, hex_text, is_hex, is_lower_hex,
    law_hex_reads_back, law_hex_writes_back,
};
use crate::identifier::{QnameModel, QualifiedName};
use crate::ir::catalog::Catalog;
use crate::model::models;
use crate::plan::error::{debug_str, debug_text, PlanError};
use crate::plan::grouping::{GroupModel, TransactionGroup};
use crate::plan::raw_step::{RawStep, StepModel};
use crate::text::{append_u64, decimal_nat, join_sql, joined, opt_text, sqls};
use crate::timestamp::Timestamp;
use vstd::prelude::*;
use vstd::string::*;
use vstd::utf8::encode_utf8;

pub use crate::plan::kind_names::{kind_name, kind_text, parse_kind_name};

verus! {

/// A finding of a lint, kept so that it can be checked again when the plan is
/// applied.
#[derive(Debug, Clone, PartialEq, Eq)]
pub struct RecordedFinding {
    /// The rule that fired, e.g. `"column-position-drift"`.
    pub rule: String,
    /// The target that the finding points at, e.g. `"app.users"`.
    pub target: String,
    /// The whole message.
    pub message: String,
}

/// The identity of a plan.
#[derive(Debug, Clone, Copy, PartialEq, Eq, Hash)]
pub struct PlanId(pub [u8; 32]);

/// The four bytes of a number, the highest first.
pub open spec fn big_endian(n: u32) -> Seq<u8> {
    seq![
        (n as int / 0x100_0000) as u8,
        (n as int / 0x1_0000 % 0x100) as u8,
        (n as int / 0x100 % 0x100) as u8,
        (n as int % 0x100) as u8,
    ]
}

/// What a plan id is the digest of: a first line that tells it from other
/// digests, the version, the ruleset version and the two catalogs, each behind
/// a zero byte.
pub open spec fn id_payload(
    source: Seq<u8>,
    target: Seq<u8>,
    version: Seq<char>,
    ruleset: u32,
) -> Seq<u8> {
    encode_utf8("pgevolve-plan-id-v1\n"@) + encode_utf8(version) + seq![0u8] + big_endian(ruleset)
        + seq![0u8] + source + seq![0u8] + target
}

/// What reading a full 64-digit id gives: the 32 bytes, or nothing where the
/// text is not 64 lower case hexadecimal digits.
pub open spec fn read_full_id(s: Seq<char>) -> Option<Seq<u8>> {
    if is_hex(s) && all_lower_digits(s) && s.len() == 64 {
        Some(hex_bytes(s))
    } else {
        None
    }
}

/// The 32 bytes of a short id: its eight bytes, then zeros.
pub open spec fn padded(bytes: Seq<u8>) -> Seq<u8> {
    bytes + Seq::new(24, |i: int| 0u8)
}

/// What reading a short 16-digit id gives: the bytes, or the error's text.
pub open spec fn read_short_id(s: Seq<char>) -> Result<Seq<u8>, Seq<char>> {
    if !is_hex(s) {
        Err("plan_id hex decode failed for "@ + debug_text(s) + ": "@ + hex_fault(s))
    } else if s.len() != 16 {
        Err(
            "plan_id hex length mismatch: expected 16 chars (8 bytes), got "@ + decimal_nat(s.len())
                + " chars ("@ + decimal_nat(s.len() / 2) + " bytes)"@,
        )
    } else if !all_lower_digits(s) {
        Err(
            "plan_id hex decode failed for "@ + debug_text(s)
                + ": upper case digit in a plan id"@,
        )
    } else {
        Ok(padded(hex_bytes(s)))
    }
}

fn append_bytes(out: &mut Vec<u8>, bytes: &[u8])
    ensures
        final(out)@ == old(out)@ + bytes@,
{
    let ghost before = out@;
    let mut i: usize = 0;
    assert(out@ =~= before + bytes@.take(0));
    while i < bytes.len()
        invariant
            i <= bytes@.len(),
            out@ == before + bytes@.take(i as int),
        decreases bytes@.len() - i,
    {
        out.push(bytes[i]);
        assert(out@ =~= before + bytes@.take(i + 1));
        i = i + 1;
    }
    assert(bytes@.take(bytes@.len() as int) =~= bytes@);
}

impl PlanId {
    /// The identity of a plan, from the planner's inputs.
    ///
    /// `source` and `target` are the two catalogs in JSON. Their serialization
    /// is deterministic, so the id is.
    pub fn compute(
        source: &[u8],
        target: &[u8],
        pgevolve_version: &str,
        planner_ruleset_version: u32,
    ) -> (id: PlanId)
        ensures
            id.0@ == blake3_digest(
                id_payload(source@, target@, pgevolve_version@, planner_ruleset_version),
            ),
    {
        let mut payload: Vec<u8> = Vec::new();
        append_bytes(&mut payload, "pgevolve-plan-id-v1\n".as_bytes());
        append_bytes(&mut payload, pgevolve_version.as_bytes());
        payload.push(0);
        payload.push((planner_ruleset_version / 0x100_0000) as u8);
        payload.push((planner_ruleset_version / 0x1_0000 % 0x100) as u8);
        payload.push((planner_ruleset_version / 0x100 % 0x100) as u8);
        payload.push((planner_ruleset_version % 0x100) as u8);
        payload.push(0);
        append_bytes(&mut payload, source);
        payload.push(0);
        append_bytes(&mut payload, target);
        assert(payload@ =~= id_payload(
            source@,
            target@,
            pgevolve_version@,
            planner_ruleset_version,
        ));
        PlanId(blake3_hash(payload.as_slice()))
    }

    /// The first eight bytes in hexadecimal: sixteen digits, for people.
    pub fn short(&self) -> (text: String)
        ensures
            text@ == hex_text(self.0@.take(8)),
    {
        let mut first: Vec<u8> = Vec::new();
        let mut i: usize = 0;
        while i < 8
            invariant
                i <= 8,
                first@ =~= self.0@.take(i as int),
            decreases 8 - i,
        {
            first.push(self.0[i]);
            i = i + 1;
        }
        hex_encode(first.as_slice())
    }

    /// All 64 digits, in lower case.
    pub fn to_hex(&self) -> (text: String)
        ensures
            text@ == hex_text(self.0@),
    {
        hex_encode(&self.0)
    }

    /// The same as [`PlanId::to_hex`].
    pub fn to_string(&self) -> (text: String)
        ensures
            text@ == hex_text(self.0@),
    {
        self.to_hex()
    }

    /// Reads a full id of 64 lower case hexadecimal digits.
    pub fn from_full_hex(s: &str) -> (r: Result<PlanId, InvalidPlanHash>)
        ensures
            match r {
                Ok(id) => read_full_id(s@) == Some(id.0@),
                Err(e) => read_full_id(s@) is None && e.0@ == s@,
            },
    {
        if !is_lower_hex(s) {
            return Err(InvalidPlanHash(s.to_owned()));
        }
        match hex_decode(s) {
            Ok(bytes) => {
                if bytes.len() == 32 {
                    let mut arr: [u8; 32] = [0; 32];
                    copy_into(&mut arr, &bytes);
                    assert(arr@ =~= bytes@);
                    Ok(PlanId(arr))
                } else {
                    Err(InvalidPlanHash(s.to_owned()))
                }
            },
            Err(_) => Err(InvalidPlanHash(s.to_owned())),
        }
    }

    /// Reads a short id of sixteen lower case hexadecimal digits. The eight
    /// bytes stand first, the others are zero, so that [`PlanId::short`] gives
    /// the text back.
    ///
    /// # Errors
    ///
    /// `PlanError::Internal` where the text is not that.
    pub fn from_hex(s: &str) -> (r: Result<PlanId, PlanError>)
        ensures
            match r {
                Ok(id) => read_short_id(s@) == Ok::<Seq<u8>, Seq<char>>(id.0@),
                Err(e) => e matches PlanError::Internal(text) && read_short_id(s@) == Err::<
                    Seq<u8>,
                    Seq<char>,
                >(text@),
            },
    {
        let bytes = match hex_decode(s) {
            Ok(bytes) => bytes,
            Err(fault) => {
                let mut text = "plan_id hex decode failed for ".to_owned();
                let shown = debug_str(s);
                text.append(shown.as_str());
                text.append(": ");
                text.append(fault.as_str());
                return Err(PlanError::Internal(text));
            },
        };
        let chars = crate::lines::chars_of(s);
        if bytes.len() != 8 {
            let mut text =
                "plan_id hex length mismatch: expected 16 chars (8 bytes), got ".to_owned();
            append_u64(&mut text, chars.len() as u64);
            text.append(" chars (");
            append_u64(&mut text, bytes.len() as u64);
            text.append(" bytes)");
            return Err(PlanError::Internal(text));
        }
        if !is_lower_hex(s) {
            let mut text = "plan_id hex decode failed for ".to_owned();
            let shown = debug_str(s);
            text.append(shown.as_str());
            text.append(": upper case digit in a plan id");
            return Err(PlanError::Internal(text));
        }
        let mut arr: [u8; 32] = [0; 32];
        copy_into(&mut arr, &bytes);
        assert(arr@ =~= padded(bytes@));
        Ok(PlanId(arr))
    }
}

fn copy_into(arr: &mut [u8; 32], bytes: &Vec<u8>)
    requires
        bytes@.len() <= 32,
    ensures
        forall|i: int| 0 <= i < bytes@.len() ==> final(arr)@[i] == #[trigger] bytes@[i],
        forall|i: int| bytes@.len() <= i < 32 ==> final(arr)@[i] == old(arr)@[i],
{
    let ghost before = arr@;
    let mut i: usize = 0;
    while i < bytes.len()
        invariant
            i <= bytes@.len() <= 32,
            forall|k: int| 0 <= k < i ==> arr@[k] == #[trigger] bytes@[k],
            forall|k: int| i <= k < 32 ==> arr@[k] == before[k],
        decreases bytes@.len() - i,
    {
        arr[i] = bytes[i];
        i = i + 1;
    }
}

/// A text that is not a full plan id.
#[derive(Debug, Clone, PartialEq, Eq)]
pub struct InvalidPlanHash(pub String);

impl InvalidPlanHash {
    /// `invalid plan hash: <text>`.
    pub fn to_string(&self) -> (text: String)
        ensures
            text@ == "invalid plan hash: "@ + self.0@,
    {
        let mut out = "invalid plan hash: ".to_owned();
        out.append(self.0.as_str());
        out
    }
}

/// Writing a full id and reading it gives the id back.
pub proof fn law_full_id_round_trips(id: Seq<u8>)
    requires
        id.len() == 32,
    ensures
        read_full_id(hex_text(id)) == Some(id),
{
    law_hex_reads_back(id);
}

/// Reading a short id and writing it gives the text back.
pub proof fn law_short_id_round_trips(s: Seq<char>)
    requires
        read_short_id(s) is Ok,
    ensures
        read_short_id(s)->Ok_0.len() == 32,
        hex_text(read_short_id(s)->Ok_0.take(8)) == s,
{
    law_hex_writes_back(s);
    assert(padded(hex_bytes(s)).take(8) =~= hex_bytes(s));
}

/// A row that modifies one step without destroying anything: the user can
/// suppress a step that was emitted automatically.
#[derive(Clone, Debug, Eq, PartialEq)]
pub struct StepOverride {
    /// The kind's name, e.g. `"refresh_materialized_view"`.
    pub kind: String,
    /// The step's first target.
    pub target: String,
    /// Whether the step is skipped.
    pub suppress: bool,
}

/// A row that acknowledges a finding, so that planning can go on.
#[derive(Debug, Clone, PartialEq, Eq)]
pub struct LintWaiver {
    /// The rule, e.g. `"column-position-drift"`.
    pub rule: String,
    /// The target, e.g. `"app.users"`.
    pub target: String,
    /// Why, in free text.
    pub reason: String,
}

/// A step that runs only after the user has approved it.
#[derive(Debug, Clone, PartialEq, Eq)]
pub struct DestructiveIntent {
    /// Intent id, counted from one.
    pub id: u32,
    /// The number of the step that it gates.
    pub step: u32,
    /// The kind's name, e.g. `drop_column`.
    pub kind: String,
    /// The step's targets.
    pub target: String,
    /// Why the step is destructive.
    pub reason: String,
    /// Whether the user has approved it.
    pub approved: bool,
}

/// The model of an intent.
#[verifier::ext_equal]
pub struct IntentModel {
    /// Intent id.
    pub id: u32,
    /// The number of the step that it gates.
    pub step: u32,
    /// The kind's name.
    pub kind: Seq<char>,
    /// The step's targets.
    pub target: Seq<char>,
    /// Why the step is destructive.
    pub reason: Seq<char>,
    /// Whether the user has approved it.
    pub approved: bool,
}

impl View for DestructiveIntent {
    type V = IntentModel;

    open spec fn view(&self) -> IntentModel {
        IntentModel {
            id: self.id,
            step: self.step,
            kind: self.kind@,
            target: self.target@,
            reason: self.reason@,
            approved: self.approved,
        }
    }
}

/// What is known of a plan beside its steps.
#[derive(Debug, Clone, PartialEq, Eq)]
pub struct PlanMetadata {
    /// The version that made the plan.
    pub pgevolve_version: String,
    /// The planner's ruleset version.
    pub planner_ruleset_version: u32,
    /// The revision of the source tree, e.g. `git:abc1234`.
    pub source_rev: Option<String>,
    /// Which database the plan is for.
    pub target_identity: String,
    /// The live catalog that the plan starts from.
    pub target_snapshot: Catalog,
    /// When the plan was made.
    pub created_at: Timestamp,
    /// Findings that were there when the plan was made.
    pub lint_at_plan_findings: Vec<RecordedFinding>,
}

/// A plan.
#[derive(Debug, Clone, PartialEq, Eq)]
pub struct Plan {
    /// Its identity.
    pub id: PlanId,
    /// Its steps, numbered, in transaction groups.
    pub groups: Vec<TransactionGroup>,
    /// One intent for each destructive step, in step order.
    pub intents: Vec<DestructiveIntent>,
    /// Acknowledged findings.
    pub lint_waivers: Vec<LintWaiver>,
    /// Modified steps.
    pub step_overrides: Vec<StepOverride>,
    /// Everything else.
    pub metadata: PlanMetadata,
    /// Findings that are for information only. They are not written to disk.
    pub advisory_findings: Vec<RecordedFinding>,
}

/// How many steps of a list are destructive.
pub open spec fn destructive_count(steps: Seq<StepModel>) -> nat
    decreases steps.len(),
{
    if steps.len() == 0 {
        0
    } else if steps.last().destructive {
        destructive_count(steps.drop_last()) + 1
    } else {
        destructive_count(steps.drop_last())
    }
}

/// A list of steps after numbering: the steps count from one, and a
/// destructive step has the number of destructive steps up to it as its
/// intent. Nothing else changes.
pub open spec fn numbered(steps: Seq<StepModel>) -> Seq<StepModel> {
    Seq::new(
        steps.len(),
        |i: int|
            StepModel {
                step_no: (i + 1) as u32,
                intent_id: if steps[i].destructive {
                    Some(destructive_count(steps.take(i + 1)) as u32)
                } else {
                    steps[i].intent_id
                },
                ..steps[i]
            },
    )
}

/// The intent of the last of a list of steps.
pub open spec fn last_intent(steps: Seq<StepModel>) -> IntentModel {
    IntentModel {
        id: destructive_count(steps) as u32,
        step: steps.len() as u32,
        kind: kind_text(steps.last().kind),
        target: targets_text(steps.last().targets),
        reason: match steps.last().destructive_reason {
            Some(r) => r,
            None => "destructive"@,
        },
        approved: false,
    }
}

/// One intent for each destructive step, in order.
pub open spec fn intents_of(steps: Seq<StepModel>) -> Seq<IntentModel>
    decreases steps.len(),
{
    if steps.len() == 0 {
        Seq::empty()
    } else if steps.last().destructive {
        intents_of(steps.drop_last()).push(last_intent(steps))
    } else {
        intents_of(steps.drop_last())
    }
}

/// Targets as one text, separated by commas.
pub open spec fn targets_text(targets: Seq<QnameModel>) -> Seq<char> {
    joined(targets.map_values(|q: QnameModel| q.sql()), ","@)
}

/// Renders targets as one text, separated by commas.
pub fn render_targets(targets: &Vec<QualifiedName>) -> (text: String)
    ensures
        text@ == targets_text(models(targets@)),
{
    assert(sqls(targets@) =~= models(targets@).map_values(|q: QnameModel| q.sql()));
    join_sql(targets, ",")
}

/// The steps of all groups, one after the other.
pub open spec fn steps_of(groups: Seq<GroupModel>) -> Seq<StepModel>
    decreases groups.len(),
{
    if groups.len() == 0 {
        Seq::empty()
    } else {
        steps_of(groups.drop_last()) + groups.last().steps
    }
}

/// Two lists of groups are the same but for what is inside their steps.
pub open spec fn same_shape(a: Seq<GroupModel>, b: Seq<GroupModel>) -> bool {
    &&& a.len() == b.len()
    &&& forall|i: int|
        #![trigger a[i]]
        #![trigger b[i]]
        0 <= i < a.len() ==> a[i].id == b[i].id && a[i].transactional == b[i].transactional
            && a[i].steps.len() == b[i].steps.len()
}

/// There are as many intents as destructive steps, and no more than steps.
pub proof fn lemma_intent_count(steps: Seq<StepModel>)
    ensures
        intents_of(steps).len() == destructive_count(steps),
        destructive_count(steps) <= steps.len(),
    decreases steps.len(),
{
    if steps.len() > 0 {
        lemma_intent_count(steps.drop_last());
    }
}

proof fn lemma_numbered_push(steps: Seq<StepModel>, step: StepModel)
    ensures
        numbered(steps.push(step)) == numbered(steps).push(numbered(steps.push(step)).last()),
{
    let more = steps.push(step);
    assert forall|i: int| 0 <= i < steps.len() implies numbered(more)[i] == numbered(steps)[i] by {
        assert(more.take(i + 1) =~= steps.take(i + 1));
    }
    assert(numbered(more) =~= numbered(steps).push(numbered(more).last()));
}

/// Numbers the steps of one group. `prefix` holds the steps of the groups
/// before it.
fn number_group(
    steps: Vec<RawStep>,
    done: u32,
    intents: &mut Vec<DestructiveIntent>,
    Ghost(prefix): Ghost<Seq<StepModel>>,
) -> (out: Vec<RawStep>)
    requires
        done == prefix.len(),
        prefix.len() + steps@.len() <= u32::MAX,
        models(old(intents)@) == intents_of(prefix),
    ensures
        models(out@) == numbered(prefix + models(steps@)).skip(prefix.len() as int),
        models(final(intents)@) == intents_of(prefix + models(steps@)),
{
    let ghost all = models(steps@);
    let mut rest = crate::plan::grouping::reversed(steps);
    let mut out: Vec<RawStep> = Vec::new();
    let mut step_no: u32 = done;
    let ghost mut seen: int = 0;
    proof {
        assert(prefix + all.take(0) =~= prefix);
        assert(numbered(prefix) + models(out@) =~= numbered(prefix + all.take(0)));
    }
    while rest.len() > 0
        invariant
            0 <= seen <= all.len(),
            models(rest@) =~= all.skip(seen).reverse(),
            step_no == prefix.len() + seen,
            prefix.len() + all.len() <= u32::MAX,
            numbered(prefix) + models(out@) == numbered(prefix + all.take(seen)),
            models(intents@) == intents_of(prefix + all.take(seen)),
        decreases rest@.len(),
    {
        let ghost before = prefix + all.take(seen);
        let ghost left = rest@;
        let ghost given = models(intents@);
        let ghost made = models(out@);
        match rest.pop() {
            Some(step) => {
                let mut step = step;
                let ghost original = step@;
                proof {
                    assert(models(left).last() == original);
                    assert(original == all[seen]);
                    assert(models(rest@) =~= models(left).drop_last());
                    assert(models(rest@) =~= all.skip(seen + 1).reverse());
                    assert(prefix + all.take(seen + 1) =~= before.push(original));
                    lemma_numbered_push(before, original);
                    lemma_intent_count(before);
                    lemma_intent_count(before.push(original));
                    assert(before.push(original).drop_last() =~= before);
                    assert(before.push(original).take(before.len() as int + 1) =~= before.push(original));
                    assert(models(intents@).len() == intents@.len());
                }
                step_no = step_no + 1;
                step.step_no = step_no;
                if step.destructive {
                    let intent_no: u32 = intents.len() as u32 + 1;
                    step.intent_id = Some(intent_no);
                    let reason = match &step.destructive_reason {
                        Some(r) => r.clone(),
                        None => "destructive".to_owned(),
                    };
                    let intent = DestructiveIntent {
                        id: intent_no,
                        step: step_no,
                        kind: kind_name(step.kind).to_owned(),
                        target: render_targets(&step.targets),
                        reason,
                        approved: false,
                    };
                    assert(intent@ == last_intent(before.push(original)));
                    intents.push(intent);
                    assert(models(intents@) =~= given.push(intent@));
                }
                assert(step@ == numbered(before.push(original)).last());
                out.push(step);
                proof {
                    assert(models(out@) =~= made.push(step@));
                    assert(numbered(prefix) + models(out@) =~= (numbered(prefix) + made).push(
                        step@,
                    ));
                    seen = seen + 1;
                }
            },
            None => {},
        }
    }
    proof {
        assert(all.skip(seen).reverse().len() == models(rest@).len());
        assert(seen == all.len());
        assert(all.take(seen) =~= all);
        assert(models(out@) =~= numbered(prefix + all).skip(prefix.len() as int));
    }
    out
}

proof fn lemma_numbered_prefix(a: Seq<StepModel>, b: Seq<StepModel>)
    ensures
        numbered(a + b).take(a.len() as int) == numbered(a),
{
    assert forall|i: int| 0 <= i < a.len() implies #[trigger] numbered(a + b)[i] == numbered(
        a,
    )[i] by {
        assert((a + b).take(i + 1) =~= a.take(i + 1));
    }
    assert(numbered(a + b).take(a.len() as int) =~= numbered(a));
}

/// A plan is made of these groups: its steps are numbered, its intents are
/// those of its destructive steps, and nothing was read from disk yet.
pub open spec fn is_assembled(
    plan: Plan,
    groups: Seq<GroupModel>,
    target_identity: Seq<char>,
    source_rev: Option<Seq<char>>,
    version: Seq<char>,
    ruleset: u32,
    created_at: Timestamp,
) -> bool {
    &&& same_shape(groups, models(plan.groups@))
    &&& steps_of(models(plan.groups@)) == numbered(steps_of(groups))
    &&& models(plan.intents@) == intents_of(steps_of(groups))
    &&& plan.lint_waivers@.len() == 0
    &&& plan.step_overrides@.len() == 0
    &&& plan.advisory_findings@.len() == 0
    &&& plan.metadata.pgevolve_version@ == version
    &&& plan.metadata.planner_ruleset_version == ruleset
    &&& opt_text(plan.metadata.source_rev) == source_rev
    &&& plan.metadata.target_identity@ == target_identity
    &&& plan.metadata.created_at == created_at
    &&& plan.metadata.lint_at_plan_findings@.len() == 0
}

impl Plan {
    /// A plan from grouped steps, under an id that the caller has.
    ///
    /// The steps are numbered from one across all groups, and every destructive
    /// step gets an intent, in step order. The snapshot of the target is empty.
    ///
    /// This cannot fail; the `Result` is for callers that treat it like other
    /// ways to make a plan.
    pub fn from_grouped_with_id(
        groups: Vec<TransactionGroup>,
        id: PlanId,
        target_identity: String,
        source_rev: Option<String>,
        pgevolve_version: &str,
        planner_ruleset_version: u32,
        created_at: Timestamp,
    ) -> (r: Result<Plan, PlanError>)
        requires
            steps_of(models(groups@)).len() <= u32::MAX,
        ensures
            r matches Ok(plan) && plan.id == id && plan.metadata.target_snapshot.is_empty()
                && is_assembled(
                plan,
                models(groups@),
                target_identity@,
                opt_text(source_rev),
                pgevolve_version@,
                planner_ruleset_version,
                created_at,
            ),
    {
        let ghost all = models(groups@);
        let mut rest = crate::plan::grouping::reversed(groups);
        let mut out: Vec<TransactionGroup> = Vec::new();
        let mut intents: Vec<DestructiveIntent> = Vec::new();
        let mut done: u32 = 0;
        let ghost mut seen: int = 0;
        proof {
            assert(steps_of(all.take(0)) =~= Seq::empty());
            assert(steps_of(models(out@)) =~= numbered(steps_of(all.take(0))));
            assert(models(intents@) =~= intents_of(steps_of(all.take(0))));
        }
        while rest.len() > 0
            invariant
                0 <= seen <= all.len(),
                models(rest@) =~= all.skip(seen).reverse(),
                out@.len() == seen,
                same_shape(all.take(seen), models(out@)),
                done == steps_of(all.take(seen)).len(),
                steps_of(all).len() <= u32::MAX,
                steps_of(models(out@)) == numbered(steps_of(all.take(seen))),
                models(intents@) == intents_of(steps_of(all.take(seen))),
            decreases rest@.len(),
        {
            let ghost left = rest@;
            let ghost prefix = steps_of(all.take(seen));
            let ghost made = models(out@);
            match rest.pop() {
                Some(group) => {
                    proof {
                        assert(models(left).last() == group@);
                        assert(group@ == all[seen]);
                        assert(models(rest@) =~= models(left).drop_last());
                        assert(models(rest@) =~= all.skip(seen + 1).reverse());
                        assert(all.take(seen + 1).drop_last() =~= all.take(seen));
                        assert(steps_of(all.take(seen + 1)) == prefix + group@.steps);
                        lemma_steps_of_prefix(all, seen + 1);
                        assert(group@.steps.len() == group.steps@.len());
                    }
                    let count: u32 = group.steps.len() as u32;
                    let steps = number_group(group.steps, done, &mut intents, Ghost(prefix));
                    let numbered_group = TransactionGroup {
                        id: group.id,
                        transactional: group.transactional,
                        steps,
                    };
                    proof {
                        let whole = numbered(prefix + group@.steps);
                        assert(numbered_group@.steps.len() == group@.steps.len());
                        lemma_numbered_prefix(prefix, group@.steps);
                        assert(numbered(prefix) + numbered_group@.steps =~= whole);
                    }
                    out.push(numbered_group);
                    done = done + count;
                    proof {
                        assert(models(out@) =~= made.push(numbered_group@));
                        assert(models(out@).drop_last() =~= made);
                        assert(same_shape(all.take(seen + 1), models(out@)));
                        seen = seen + 1;
                    }
                },
                None => {},
            }
        }
        proof {
            assert(all.skip(seen).reverse().len() == models(rest@).len());
            assert(all.take(seen) =~= all);
        }
        let metadata = PlanMetadata {
            pgevolve_version: pgevolve_version.to_owned(),
            planner_ruleset_version,
            source_rev,
            target_identity,
            target_snapshot: Catalog::empty(),
            created_at,
            lint_at_plan_findings: Vec::new(),
        };
        Ok(
            Plan {
                id,
                groups: out,
                intents,
                lint_waivers: Vec::new(),
                step_overrides: Vec::new(),
                metadata,
                advisory_findings: Vec::new(),
            },
        )
    }

    /// A plan from grouped steps, under the id of its two catalogs.
    ///
    /// `source_json` and `target_json` are the catalogs in JSON; `target` is
    /// the live catalog, which the plan keeps. The rest is as in
    /// [`Plan::from_grouped_with_id`].
    pub fn from_grouped(
        groups: Vec<TransactionGroup>,
        source_json: &[u8],
        target_json: &[u8],
        target: Catalog,
        target_identity: String,
        source_rev: Option<String>,
        pgevolve_version: &str,
        planner_ruleset_version: u32,
        created_at: Timestamp,
    ) -> (r: Result<Plan, PlanError>)
        requires
            steps_of(models(groups@)).len() <= u32::MAX,
        ensures
            r matches Ok(plan) && plan.id.0@ == blake3_digest(
                id_payload(
                    source_json@,
                    target_json@,
                    pgevolve_version@,
                    planner_ruleset_version,
                ),
            ) && plan.metadata.target_snapshot == target && is_assembled(
                plan,
                models(groups@),
                target_identity@,
                opt_text(source_rev),
                pgevolve_version@,
                planner_ruleset_version,
                created_at,
            ),
    {
        let id = PlanId::compute(
            source_json,
            target_json,
            pgevolve_version,
            planner_ruleset_version,
        );
        match Plan::from_grouped_with_id(
            groups,
            id,
            target_identity,
            source_rev,
            pgevolve_version,
            planner_ruleset_version,
            created_at,
        ) {
            Ok(mut plan) => {
                plan.metadata.target_snapshot = target;
                Ok(plan)
            },
            Err(e) => Err(e),
        }
    }

    /// Approves every destructive intent. For tests that build plans in code.
    pub fn approve_all_intents(&mut self)
        ensures
            models(final(self).intents@) == models(old(self).intents@).map_values(
                |i: IntentModel| IntentModel { approved: true, ..i },
            ),
            final(self).id == old(self).id,
            final(self).groups == old(self).groups,
            final(self).lint_waivers == old(self).lint_waivers,
            final(self).step_overrides == old(self).step_overrides,
            final(self).metadata == old(self).metadata,
            final(self).advisory_findings == old(self).advisory_findings,
    {
        let ghost before = models(self.intents@);
        let ghost start = *self;
        let mut i: usize = 0;
        while i < self.intents.len()
            invariant
                i <= self.intents@.len(),
                before.len() == self.intents@.len(),
                forall|k: int|
                    0 <= k < i ==> (#[trigger] self.intents@[k])@ == (IntentModel {
                        approved: true,
                        ..before[k]
                    }),
                forall|k: int|
                    i <= k < self.intents@.len() ==> (#[trigger] self.intents@[k])@ == before[k],
                self.id == start.id,
                self.groups == start.groups,
                self.lint_waivers == start.lint_waivers,
                self.step_overrides == start.step_overrides,
                self.metadata == start.metadata,
                self.advisory_findings == start.advisory_findings,
            decreases self.intents@.len() - i,
        {
            self.intents[i].approved = true;
            i = i + 1;
        }
        assert(models(self.intents@) =~= before.map_values(
            |i: IntentModel| IntentModel { approved: true, ..i },
        ));
    }
}

/// A prefix of the groups holds no more steps than all of them.
proof fn lemma_steps_of_prefix(groups: Seq<GroupModel>, n: int)
    requires
        0 <= n <= groups.len(),
    ensures
        steps_of(groups.take(n)).len() <= steps_of(groups).len(),
    decreases groups.len() - n,
{
    if n == groups.len() {
        assert(groups.take(n) =~= groups);
    } else {
        lemma_steps_of_prefix(groups, n + 1);
        assert(groups.take(n + 1).drop_last() =~= groups.take(n));
    }
}

/// Step numbers are contiguous across groups, from one.
pub proof fn law_step_numbers_are_contiguous(steps: Seq<StepModel>, i: int)
    requires
        0 <= i < steps.len() <= u32::MAX,
    ensures
        numbered(steps)[i].step_no == i + 1,
{
}

/// Every destructive step has exactly one intent, and the intent names it:
/// the step's intent id counts intents from one, and the intent of that id has
/// the step's number, kind and targets, and its reason or, where it gives none,
/// the word `destructive`.
pub proof fn law_intents_match_destructive_steps(steps: Seq<StepModel>, i: int)
    requires
        0 <= i < steps.len() <= u32::MAX,
        steps[i].destructive,
    ensures
        ({
            let n = destructive_count(steps.take(i + 1));
            &&& 1 <= n <= intents_of(steps).len()
            &&& numbered(steps)[i].intent_id == Some(n as u32)
            &&& intents_of(steps)[n - 1].id == n
            &&& intents_of(steps)[n - 1].step == numbered(steps)[i].step_no
            &&& intents_of(steps)[n - 1].kind == kind_text(steps[i].kind)
            &&& intents_of(steps)[n - 1].target == targets_text(steps[i].targets)
            &&& intents_of(steps)[n - 1].reason == match steps[i].destructive_reason {
                Some(reason) => reason,
                None => "destructive"@,
            }
            &&& !intents_of(steps)[n - 1].approved
        }),
    decreases steps.len(),
{
    lemma_intent_count(steps);
    lemma_intent_count(steps.drop_last());
    if i == steps.len() - 1 {
        assert(steps.take(i + 1) =~= steps);
    } else {
        law_intents_match_destructive_steps(steps.drop_last(), i);
        assert(steps.drop_last().take(i + 1) =~= steps.take(i + 1));
        assert(steps.drop_last()[i] == steps[i]);
    }
}

/// There are exactly as many intents as destructive steps, and their ids count
/// from one.
pub proof fn law_intent_ids_are_contiguous(steps: Seq<StepModel>, j: int)
    requires
        steps.len() <= u32::MAX,
        0 <= j < intents_of(steps).len(),
    ensures
        intents_of(steps).len() == destructive_count(steps),
        intents_of(steps)[j].id == j + 1,
    decreases steps.len(),
{
    lemma_intent_count(steps);
    if steps.len() > 0 {
        lemma_intent_count(steps.drop_last());
        if j < intents_of(steps.drop_last()).len() {
            law_intent_ids_are_contiguous(steps.drop_last(), j);
        }
    }
}

} // verus!
