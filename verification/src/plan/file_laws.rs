//! How the plan's files are read, line by line, and what ties them together.

use crate::lines::{begins, holds, trimmed_end};
use crate::plan::deserialize::{
    finished, ids_agree, reason_of, scan_line, step_directive, step_pair, with_reason,
    ParsedIntent, ParsedManifest, PartialModel, ScanModel, StepDraft,
};
use crate::plan::directives::{flag_of, kind_of, number_of, targets_of};
use crate::plan::dollar_quotes::open_tag;
use crate::plan::grouping::{all_steps, is_grouping, uniform, GroupModel, TransactionGroup};
use crate::plan::plan::{big_endian, id_payload, numbered, read_short_id, IntentModel};
use crate::plan::raw_step::{RawStep, StepModel};
use vstd::prelude::*;

verus! {

/// The text `part` stands somewhere in `line`.
pub open spec fn stands_in(line: Seq<char>, part: Seq<char>) -> bool {
    exists|i: int|
        0 <= i && i + part.len() <= line.len() && #[trigger] line.subrange(
            i,
            i + part.len(),
        ) == part
}

proof fn lemma_stands_in(line: Seq<char>, part: Seq<char>)
    ensures
        holds(line, part) <==> stands_in(line, part),
{
    if holds(line, part) {
        let i = choose|i: int| 0 <= i <= line.len() && begins(#[trigger] line.skip(i), part);
        assert(line.subrange(i, i + part.len()) =~= line.skip(i).take(part.len() as int));
    }
    if stands_in(line, part) {
        let i = choose|i: int|
            0 <= i && i + part.len() <= line.len() && #[trigger] line.subrange(i, i + part.len())
                == part;
        assert(line.skip(i).take(part.len() as int) =~= line.subrange(i, i + part.len()));
        assert(begins(line.skip(i), part));
    }
}

/// Inside a dollar-quoted literal every line belongs to the step, whatever it
/// holds, and the literal ends with the first line that holds its marker.
pub proof fn law_lines_inside_a_literal_belong_to_the_step(
    m: ScanModel,
    line: Seq<char>,
    tag: Seq<char>,
    step: StepModel,
    body: Seq<Seq<char>>,
)
    requires
        m.tag == Some(tag),
        m.step == Some((step, body)),
    ensures
        scan_line(m, line) is Ok,
        ({
            let after = scan_line(m, line)->Ok_0;
            &&& after.step == Some((step, body.push(line)))
            &&& after.tag is None <==> stands_in(line, "$"@ + tag + "$"@)
            &&& after.tag is Some ==> after.tag == Some(tag)
            &&& after.groups == m.groups && after.group == m.group
        }),
{
    lemma_stands_in(line, "$"@ + tag + "$"@);
}

/// A flag is one of two words, and each has its own meaning.
pub proof fn law_flags_are_two_words(s: Seq<char>, t: Seq<char>)
    ensures
        flag_of("true"@) == Ok::<bool, Seq<char>>(true),
        flag_of("false"@) == Ok::<bool, Seq<char>>(false),
        flag_of(s) is Ok ==> s == "true"@ || s == "false"@,
        flag_of(s) is Ok && flag_of(t) is Ok && flag_of(s) == flag_of(t) ==> s == t,
{
    reveal_strlit("true");
    reveal_strlit("false");
    assert("true"@.len() != "false"@.len());
}

/// A step's reason comes from an intent with the step's intent id, and no other
/// part of the step changes; a step without an intent id, or one that no intent
/// has, stays as it is.
pub proof fn law_reasons_come_from_the_steps_own_intent(
    step: StepModel,
    intents: Seq<IntentModel>,
)
    ensures
        (StepModel { destructive_reason: step.destructive_reason, ..with_reason(step, intents) })
            == step,
        step.intent_id is None ==> with_reason(step, intents) == step,
        with_reason(step, intents) != step ==> exists|k: int|
            0 <= k < intents.len() && step.intent_id == Some((#[trigger] intents[k]).id)
                && with_reason(step, intents).destructive_reason == Some(intents[k].reason),
        forall|k: int|
            0 <= k < intents.len() && step.intent_id == Some((#[trigger] intents[k]).id) && (forall|
                n: int,
            |
                0 <= n < intents.len() && n != k ==> (#[trigger] intents[n]).id != intents[k].id)
                ==> with_reason(step, intents).destructive_reason == Some(intents[k].reason),
{
    if let Some(id) = step.intent_id {
        lemma_reason_of(intents, id);
    }
}

proof fn lemma_reason_of(intents: Seq<IntentModel>, id: u32)
    ensures
        match reason_of(intents, id) {
            Some(reason) => exists|k: int|
                0 <= k < intents.len() && (#[trigger] intents[k]).id == id && intents[k].reason
                    == reason,
            None => forall|k: int| 0 <= k < intents.len() ==> (#[trigger] intents[k]).id != id,
        },
    decreases intents.len(),
{
    if intents.len() > 0 {
        let rest = intents.drop_first();
        lemma_reason_of(rest, id);
        if intents[0].id != id {
            match reason_of(rest, id) {
                Some(reason) => {
                    let k = choose|k: int|
                        0 <= k < rest.len() && (#[trigger] rest[k]).id == id && rest[k].reason
                            == reason;
                    assert(intents[k + 1] == rest[k]);
                },
                None => {
                    assert forall|k: int| 0 <= k < intents.len() implies (
                    #[trigger] intents[k]).id != id by {
                        if k > 0 {
                            assert(rest[k - 1] == intents[k]);
                        }
                    }
                },
            }
        }
    }
}

/// The three files belong together exactly where each of them gives the same
/// plan id.
pub proof fn law_files_agree_on_the_plan(
    sql: PartialModel,
    intent: ParsedIntent,
    manifest: ParsedManifest,
)
    ensures
        ids_agree(sql, intent, manifest) <==> sql.id_short == intent.plan_id@ && intent.plan_id@
            == manifest.plan_id@ && manifest.plan_id@ == sql.id_short,
{
}

/// How many steps stand before the group at `i`.
pub open spec fn steps_before(groups: Seq<TransactionGroup>, i: int) -> int
    decreases i,
{
    if i <= 0 {
        0
    } else {
        steps_before(groups, i - 1) + groups[i - 1].steps@.len()
    }
}

proof fn lemma_steps_before(groups: Seq<TransactionGroup>, shorter: Seq<TransactionGroup>, i: int)
    requires
        0 <= i <= shorter.len() <= groups.len(),
        forall|k: int| 0 <= k < shorter.len() ==> shorter[k] == groups[k],
    ensures
        steps_before(groups, i) == steps_before(shorter, i),
    decreases i,
{
    if i > 0 {
        lemma_steps_before(groups, shorter, i - 1);
    }
}

proof fn lemma_group_places(groups: Seq<TransactionGroup>, i: int, k: int)
    requires
        0 <= i < groups.len(),
        0 <= k < groups[i].steps@.len(),
    ensures
        0 <= steps_before(groups, i),
        steps_before(groups, i) + k < all_steps(groups).len(),
        all_steps(groups)[steps_before(groups, i) + k] == groups[i].steps@[k],
        all_steps(groups).len() == steps_before(groups, groups.len() as int),
    decreases groups.len(),
{
    let rest = groups.drop_last();
    lemma_total(rest);
    lemma_steps_before(groups, rest, rest.len() as int);
    if i < rest.len() {
        lemma_group_places(rest, i, k);
        lemma_steps_before(groups, rest, i);
        assert(rest[i] == groups[i]);
    }
}

proof fn lemma_total(groups: Seq<TransactionGroup>)
    ensures
        all_steps(groups).len() == steps_before(groups, groups.len() as int),
    decreases groups.len(),
{
    if groups.len() > 0 {
        let rest = groups.drop_last();
        lemma_total(rest);
        lemma_steps_before(groups, rest, rest.len() as int);
    }
}

/// Groups are the longest runs of neighbouring steps that run alike: each step
/// stands in its group at its own place, a group runs in a transaction exactly
/// where all its steps do, none is empty, neighbours run differently, and ids
/// count from one.
pub proof fn law_groups_are_runs_of_steps(
    steps: Seq<RawStep>,
    groups: Seq<TransactionGroup>,
    i: int,
    k: int,
)
    requires
        is_grouping(steps, groups),
        0 <= i < groups.len(),
        groups.len() <= u32::MAX,
    ensures
        groups[i].id == i + 1,
        groups[i].steps@.len() > 0,
        0 <= k < groups[i].steps@.len() ==> {
            &&& 0 <= steps_before(groups, i) + k < steps.len()
            &&& groups[i].steps@[k] == steps[steps_before(groups, i) + k]
            &&& groups[i].transactional <==> groups[i].steps@[k].transactional is InTransaction
        },
        i + 1 < groups.len() ==> groups[i].transactional != groups[i + 1].transactional,
{
    assert(uniform(groups[i]));
    if 0 <= k < groups[i].steps@.len() {
        lemma_group_places(groups, i, k);
    }
}

/// Numbering changes a step's number and its intent id and nothing else, and the
/// intent id of a step that is not destructive not at all.
pub proof fn law_numbering_keeps_the_rest(steps: Seq<StepModel>, i: int)
    requires
        0 <= i < steps.len(),
    ensures
        numbered(steps).len() == steps.len(),
        (StepModel {
            step_no: steps[i].step_no,
            intent_id: steps[i].intent_id,
            ..numbered(steps)[i]
        }) == steps[i],
        !steps[i].destructive ==> numbered(steps)[i].intent_id == steps[i].intent_id,
{
}

/// What is hashed for a plan's id ends with the two catalogs, the desired one
/// before the live one, and what stands before them does not depend on them.
pub proof fn law_hashed_bytes_end_with_the_catalogs(
    source: Seq<u8>,
    target: Seq<u8>,
    other_source: Seq<u8>,
    other_target: Seq<u8>,
    version: Seq<char>,
    ruleset: u32,
)
    ensures
        ({
            let all = id_payload(source, target, version, ruleset);
            let other = id_payload(other_source, other_target, version, ruleset);
            let head = all.len() - target.len() - 1 - source.len();
            &&& head >= 0
            &&& all.skip(all.len() - target.len()) =~= target
            &&& all.subrange(head, head + source.len()) =~= source
            &&& all.take(head) =~= other.take(head)
            &&& other.len() - other_target.len() - 1 - other_source.len() == head
        }),
{
}

/// Bytes in which the ruleset's version is hashed give the version back, and so
/// tell versions apart.
pub proof fn law_hashed_version_numbers_read_back(n: u32)
    ensures
        big_endian(n).len() == 4,
        big_endian(n)[0] * 0x100_0000 + big_endian(n)[1] * 0x1_0000 + big_endian(n)[2] * 0x100
            + big_endian(n)[3] == n,
{
}

/// A short id fills the first eight bytes of a plan's id and leaves the others
/// zero.
pub proof fn law_short_ids_fill_eight_bytes(s: Seq<char>, i: int)
    requires
        read_short_id(s) is Ok,
    ensures
        s.len() == 16,
        read_short_id(s)->Ok_0.len() == 32,
        8 <= i < 32 ==> read_short_id(s)->Ok_0[i] == 0,
        read_short_id(s)->Ok_0.take(8) =~= crate::hexadecimal::hex_bytes(s),
{
    assert(crate::hexadecimal::hex_bytes(s).len() == 8);
}

/// Outside a literal, a line of white space and a line that begins a transaction
/// leave everything as it is, and a line that commits ends the step and the
/// group.
pub proof fn law_layout_lines_hold_no_sql(m: ScanModel, line: Seq<char>)
    requires
        m.tag is None,
    ensures
        trimmed_end(line).len() == 0 ==> scan_line(m, line) == Ok::<ScanModel, Seq<char>>(m),
        trimmed_end(line) == "BEGIN;"@ && open_tag(line) is None ==> scan_line(m, line) == Ok::<
            ScanModel,
            Seq<char>,
        >(m),
        trimmed_end(line) == "COMMIT;"@ && open_tag(line) is None ==> scan_line(m, line) is Ok
            && scan_line(m, line)->Ok_0.group is None && scan_line(m, line)->Ok_0.step is None,
{
    reveal_strlit("BEGIN;");
    reveal_strlit("COMMIT;");
    reveal_strlit("-- @pgevolve ");
    assert("BEGIN;"@[0] == 'B' && "COMMIT;"@[0] == 'C');
    if begins("BEGIN;"@, "-- @pgevolve "@) || begins("COMMIT;"@, "-- @pgevolve "@) {
        assert("-- @pgevolve "@.len() > "COMMIT;"@.len());
    }
}

/// When a group ends, it stands behind the groups read before, with its step in
/// progress as its last one.
pub proof fn law_committed_groups_are_kept(
    m: ScanModel,
    line: Seq<char>,
    g: GroupModel,
    step: StepModel,
    body: Seq<Seq<char>>,
)
    requires
        m.tag is None,
        trimmed_end(line) == "COMMIT;"@,
        open_tag(line) is None,
        m.group == Some(g),
        m.step == Some((step, body)),
    ensures
        scan_line(m, line) is Ok,
        scan_line(m, line)->Ok_0.groups.len() == m.groups.len() + 1,
        scan_line(m, line)->Ok_0.groups.take(m.groups.len() as int) =~= m.groups,
        ({
            let last = scan_line(m, line)->Ok_0.groups.last();
            &&& last.id == g.id && last.transactional == g.transactional
            &&& last.steps.len() == g.steps.len() + 1
            &&& last.steps.take(g.steps.len() as int) =~= g.steps
            &&& (StepModel { sql: step.sql, ..last.steps.last() }) == step
        }),
{
    law_layout_lines_hold_no_sql(m, line);
    reveal_strlit("BEGIN;");
    reveal_strlit("COMMIT;");
    reveal_strlit("-- @pgevolve ");
    assert("-- @pgevolve "@.len() > "COMMIT;"@.len());
    assert("BEGIN;"@.len() != "COMMIT;"@.len());
}

/// Outside a literal, a line that is neither layout nor a directive belongs to
/// the step as it stands, and opens a literal where a marker stays open in it.
pub proof fn law_other_lines_belong_to_the_step(
    m: ScanModel,
    line: Seq<char>,
    step: StepModel,
    body: Seq<Seq<char>>,
)
    requires
        m.tag is None,
        m.step == Some((step, body)),
        trimmed_end(line).len() > 0,
        open_tag(line) is Some || (!begins(trimmed_end(line), "-- @pgevolve "@) && trimmed_end(line)
            != "BEGIN;"@ && trimmed_end(line) != "COMMIT;"@),
    ensures
        scan_line(m, line) is Ok,
        scan_line(m, line)->Ok_0.step == Some((step, body.push(line))),
        scan_line(m, line)->Ok_0.tag == open_tag(line),
        scan_line(m, line)->Ok_0.groups == m.groups && scan_line(m, line)->Ok_0.group == m.group,
{
}

/// A plan is complete where its header gives the id, the version, the ruleset,
/// the target, the number of intents and the time; the revision may be missing.
/// What is missing first, in that order, is what is reported.
pub proof fn law_headers_are_complete(m: ScanModel)
    ensures
        finished(m) is Ok <==> m.id_short is Some && m.version is Some && m.ruleset is Some
            && m.target is Some && m.intents_required is Some && m.created is Some,
        finished(m) is Ok ==> finished(m)->Ok_0.groups == m.groups && finished(m)->Ok_0.source_rev
            == m.source_rev && Some(finished(m)->Ok_0.id_short) == m.id_short && Some(
            finished(m)->Ok_0.version,
        ) == m.version && Some(finished(m)->Ok_0.ruleset) == m.ruleset && Some(
            finished(m)->Ok_0.target,
        ) == m.target && Some(finished(m)->Ok_0.intents_required) == m.intents_required && Some(
            finished(m)->Ok_0.created,
        ) == m.created,
        m.id_short is None ==> finished(m) == Err::<PartialModel, Seq<char>>("missing plan id"@),
        m.id_short is Some && m.version is None ==> finished(m) == Err::<PartialModel, Seq<char>>(
            "missing version"@,
        ),
        m.id_short is Some && m.version is Some && m.ruleset is None ==> finished(m) == Err::<
            PartialModel,
            Seq<char>,
        >("missing ruleset"@),
{
}

/// A step's directive needs a kind, and a group to stand in; the step runs as
/// its group does and starts without SQL and without a reason.
pub proof fn law_steps_stand_in_groups(m: ScanModel, pairs: Seq<(Seq<char>, Seq<char>)>)
    requires
        step_directive(m, pairs) is Ok,
    ensures
        m.group is Some,
        step_directive(m, pairs)->Ok_0.step is Some,
        step_directive(m, pairs)->Ok_0.step->Some_0.1.len() == 0,
        step_directive(m, pairs)->Ok_0.step->Some_0.0.destructive_reason is None,
        step_directive(m, pairs)->Ok_0.step->Some_0.0.sql.len() == 0,
        step_directive(m, pairs)->Ok_0.step->Some_0.0.transactional is InTransaction
            <==> m.group->Some_0.transactional,
        step_directive(m, pairs)->Ok_0.groups == m.groups,
{
    reveal_strlit("");
}

/// Each key of a step's directive sets its own part and no other; an unknown key
/// sets nothing.
pub proof fn law_step_keys_set_their_own_part(d: StepDraft, v: Seq<char>)
    ensures
        number_of(v) matches Ok(n) ==> step_pair(d, ("step"@, v)) == Ok::<StepDraft, Seq<char>>(
            StepDraft { step_no: n, ..d },
        ) && step_pair(d, ("intent_id"@, v)) == Ok::<StepDraft, Seq<char>>(
            StepDraft { intent_id: Some(n), ..d },
        ),
        flag_of(v) matches Ok(b) ==> step_pair(d, ("destructive"@, v)) == Ok::<
            StepDraft,
            Seq<char>,
        >(StepDraft { destructive: b, ..d }),
        kind_of(v) matches Ok(k) ==> step_pair(d, ("kind"@, v)) == Ok::<StepDraft, Seq<char>>(
            StepDraft { kind: Some(k), ..d },
        ),
        targets_of(v) matches Ok(t) ==> step_pair(d, ("targets"@, v)) == Ok::<
            StepDraft,
            Seq<char>,
        >(StepDraft { targets: t, ..d }),
{
    lemma_step_keys_differ();
}

proof fn lemma_step_keys_differ()
    ensures
        "step"@ != "kind"@,
        "destructive"@ != "step"@,
        "destructive"@ != "kind"@,
        "intent_id"@ != "step"@,
        "intent_id"@ != "kind"@,
        "intent_id"@ != "destructive"@,
        "targets"@ != "step"@,
        "targets"@ != "kind"@,
        "targets"@ != "destructive"@,
        "targets"@ != "intent_id"@,
{
    reveal_strlit("step");
    reveal_strlit("kind");
    reveal_strlit("destructive");
    reveal_strlit("intent_id");
    reveal_strlit("targets");
    assert("step"@[0] == 's' && "kind"@[0] == 'k' && "destructive"@[0] == 'd' && "intent_id"@[0]
        == 'i' && "targets"@[0] == 't');
}

} // verus!
