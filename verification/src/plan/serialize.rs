//! Writing a plan.
//!
//! ```text
//! -- @pgevolve plan id=<short id> version=<v> ruleset=<n> created=<time>
//! -- @pgevolve source_rev=<rev>
//! -- @pgevolve target=<identity>
//! -- @pgevolve intents_required=<n>
//!
//! -- @pgevolve group id=1 transactional=true
//! BEGIN;
//! -- @pgevolve step=1 kind=drop_table destructive=true intent_id=1 targets=app.legacy
//! DROP TABLE app.legacy;
//! COMMIT;
//! ```

use crate::hexadecimal::hex_text;
use crate::identifier::{QnameModel, QualifiedName};
use crate::model::models;
use crate::plan::deserialize::PartialModel;
use crate::plan::grouping::{GroupModel, TransactionGroup};
use crate::plan::io_error::PlanIoError;
use crate::plan::kind_names::{kind_name, kind_text};
use crate::plan::plan::Plan;
use crate::plan::raw_step::{RawStep, StepModel};
use crate::plan::rewrite::publications::{flag_text, render_flag};
use crate::text::{decimal_nat, join, joined, opt_text, texts, u32_text};
use crate::timestamp::{format_rfc3339, read_as, rfc3339_reading, rfc3339_writing, spaceless};
use vstd::prelude::*;
use vstd::string::*;

verus! {

/// `key=value`.
pub open spec fn word(key: Seq<char>, value: Seq<char>) -> Seq<char> {
    key + "="@ + value
}

/// A directive: its words, each behind one space.
pub open spec fn directive_line(words: Seq<Seq<char>>) -> Seq<char> {
    "-- @pgevolve "@ + joined(words, " "@)
}

/// The words of the `plan` directive.
pub open spec fn plan_words(p: PartialModel, created: Seq<char>) -> Seq<Seq<char>> {
    seq![
        "plan"@,
        word("id"@, p.id_short),
        word("version"@, p.version),
        word("ruleset"@, decimal_nat(p.ruleset as nat)),
        word("created"@, created),
    ]
}

/// The words of the `group` directive.
pub open spec fn group_words(g: GroupModel) -> Seq<Seq<char>> {
    seq![
        "group"@,
        word("id"@, decimal_nat(g.id as nat)),
        word("transactional"@, flag_text(g.transactional)),
    ]
}

/// The names of the targets, separated by commas.
pub open spec fn target_list(targets: Seq<QnameModel>) -> Seq<char> {
    joined(targets.map_values(|q: QnameModel| q.display()), ","@)
}

/// The words of the `step` directive.
pub open spec fn step_words(s: StepModel) -> Seq<Seq<char>> {
    let a = seq![
        word("step"@, decimal_nat(s.step_no as nat)),
        word("kind"@, kind_text(s.kind)),
        word("destructive"@, flag_text(s.destructive)),
    ];
    let b = match s.intent_id {
        Some(id) => a.push(word("intent_id"@, decimal_nat(id as nat))),
        None => a,
    };
    b.push(word("targets"@, target_list(s.targets)))
}

/// The text of a step: its directive, then its SQL.
pub open spec fn step_text(s: StepModel) -> Seq<char> {
    directive_line(step_words(s)) + "\n"@ + s.sql + "\n"@
}

/// The texts of steps, one after the other.
pub open spec fn steps_text(steps: Seq<StepModel>) -> Seq<char>
    decreases steps.len(),
{
    if steps.len() == 0 {
        ""@
    } else {
        steps_text(steps.drop_last()) + step_text(steps.last())
    }
}

/// The text of a group: an empty line, its directive and its steps; a
/// transactional group stands between `BEGIN;` and `COMMIT;`.
pub open spec fn group_text(g: GroupModel) -> Seq<char> {
    let head = "\n"@ + directive_line(group_words(g)) + "\n"@;
    if g.transactional {
        head + "BEGIN;\n"@ + steps_text(g.steps) + "COMMIT;\n"@
    } else {
        head + steps_text(g.steps)
    }
}

/// The texts of groups, one after the other.
pub open spec fn groups_text(groups: Seq<GroupModel>) -> Seq<char>
    decreases groups.len(),
{
    if groups.len() == 0 {
        ""@
    } else {
        groups_text(groups.drop_last()) + group_text(groups.last())
    }
}

/// The directives before the first group.
pub open spec fn header_text(p: PartialModel, created: Seq<char>) -> Seq<char> {
    let a = directive_line(plan_words(p, created)) + "\n"@;
    let b = match p.source_rev {
        Some(rev) => a + directive_line(seq![word("source_rev"@, rev)]) + "\n"@,
        None => a,
    };
    b + directive_line(seq![word("target"@, p.target)]) + "\n"@ + directive_line(
        seq![word("intents_required"@, decimal_nat(p.intents_required as nat))],
    ) + "\n"@
}

/// `plan.sql`.
pub open spec fn plan_sql_text(p: PartialModel, created: Seq<char>) -> Seq<char> {
    header_text(p, created) + groups_text(p.groups)
}

/// What `plan.sql` says of a plan.
pub open spec fn sql_view(plan: Plan) -> PartialModel {
    PartialModel {
        id_short: hex_text(plan.id.0@.take(8)),
        version: plan.metadata.pgevolve_version@,
        ruleset: plan.metadata.planner_ruleset_version,
        source_rev: opt_text(plan.metadata.source_rev),
        target: plan.metadata.target_identity@,
        intents_required: plan.intents@.len() as u32,
        created: plan.metadata.created_at,
        groups: models(plan.groups@),
    }
}

fn render_word(key: &str, value: &str) -> (text: String)
    ensures
        text@ == word(key@, value@),
{
    let mut out = key.to_owned();
    out.append("=");
    out.append(value);
    out
}

fn push_word(words: &mut Vec<String>, key: &str, value: &str)
    ensures
        texts(final(words)@) == texts(old(words)@).push(word(key@, value@)),
{
    let ghost before = texts(words@);
    let text = render_word(key, value);
    words.push(text);
    assert(texts(words@) =~= before.push(text@));
}

fn append_directive(out: &mut String, words: &Vec<String>)
    ensures
        final(out)@ == old(out)@ + directive_line(texts(words@)) + "\n"@,
{
    let ghost before = out@;
    let mut line = "-- @pgevolve ".to_owned();
    let list = join(words, " ");
    line.append(list.as_str());
    out.append(line.as_str());
    out.append("\n");
}

fn render_target_list(targets: &Vec<QualifiedName>) -> (text: String)
    ensures
        text@ == target_list(models(targets@)),
{
    let ghost all = models(targets@).map_values(|q: QnameModel| q.display());
    let mut parts: Vec<String> = Vec::new();
    let mut i: usize = 0;
    while i < targets.len()
        invariant
            i <= targets@.len(),
            all == models(targets@).map_values(|q: QnameModel| q.display()),
            texts(parts@) =~= all.take(i as int),
        decreases targets@.len() - i,
    {
        let ghost before = texts(parts@);
        let part = targets[i].to_string();
        parts.push(part);
        assert(texts(parts@) =~= before.push(part@));
        i = i + 1;
    }
    assert(texts(parts@) =~= all);
    join(&parts, ",")
}

fn append_step(out: &mut String, step: &RawStep)
    ensures
        final(out)@ == old(out)@ + step_text(step@),
{
    let ghost before = out@;
    let mut words: Vec<String> = Vec::new();
    let no = u32_text(step.step_no);
    push_word(&mut words, "step", no.as_str());
    push_word(&mut words, "kind", kind_name(step.kind));
    push_word(&mut words, "destructive", render_flag(step.destructive));
    match step.intent_id {
        Some(id) => {
            let text = u32_text(id);
            push_word(&mut words, "intent_id", text.as_str());
        },
        None => {},
    }
    let targets = render_target_list(&step.targets);
    push_word(&mut words, "targets", targets.as_str());
    assert(texts(words@) =~= step_words(step@));
    append_directive(out, &words);
    out.append(step.sql.as_str());
    out.append("\n");
    assert(out@ =~= before + step_text(step@));
}

fn append_steps(out: &mut String, steps: &Vec<RawStep>)
    ensures
        final(out)@ == old(out)@ + steps_text(models(steps@)),
{
    let ghost before = out@;
    let ghost all = models(steps@);
    let mut i: usize = 0;
    proof {
        reveal_strlit("");
        assert(out@ =~= before + steps_text(all.take(0)));
    }
    while i < steps.len()
        invariant
            i <= steps@.len(),
            all == models(steps@),
            out@ == before + steps_text(all.take(i as int)),
        decreases steps@.len() - i,
    {
        append_step(out, &steps[i]);
        proof {
            assert(all.take(i + 1).drop_last() =~= all.take(i as int));
            assert(out@ =~= before + steps_text(all.take(i + 1)));
        }
        i = i + 1;
    }
    assert(all.take(i as int) =~= all);
}

fn append_group(out: &mut String, group: &TransactionGroup)
    ensures
        final(out)@ == old(out)@ + group_text(group@),
{
    let ghost before = out@;
    let mut words: Vec<String> = Vec::new();
    words.push("group".to_owned());
    assert(texts(words@) =~= seq!["group"@]);
    let id = u32_text(group.id);
    push_word(&mut words, "id", id.as_str());
    push_word(&mut words, "transactional", render_flag(group.transactional));
    assert(texts(words@) =~= group_words(group@));
    out.append("\n");
    append_directive(out, &words);
    if group.transactional {
        out.append("BEGIN;\n");
    }
    append_steps(out, &group.steps);
    if group.transactional {
        out.append("COMMIT;\n");
    }
    assert(out@ =~= before + group_text(group@));
}

fn append_groups(out: &mut String, groups: &Vec<TransactionGroup>)
    ensures
        final(out)@ == old(out)@ + groups_text(models(groups@)),
{
    let ghost before = out@;
    let ghost all = models(groups@);
    let mut i: usize = 0;
    proof {
        reveal_strlit("");
        assert(out@ =~= before + groups_text(all.take(0)));
    }
    while i < groups.len()
        invariant
            i <= groups@.len(),
            all == models(groups@),
            out@ == before + groups_text(all.take(i as int)),
        decreases groups@.len() - i,
    {
        append_group(out, &groups[i]);
        proof {
            assert(all.take(i + 1).drop_last() =~= all.take(i as int));
            assert(out@ =~= before + groups_text(all.take(i + 1)));
        }
        i = i + 1;
    }
    assert(all.take(i as int) =~= all);
}

/// Writes `plan.sql`.
///
/// # Errors
///
/// `PlanIoError::MalformedDirective` where the plan's time has no RFC 3339
/// text.
pub fn write_plan_sql(plan: &Plan) -> (r: Result<String, PlanIoError>)
    requires
        plan.intents@.len() <= u32::MAX,
    ensures
        ({
            let at = plan.metadata.created_at;
            match rfc3339_writing(at.unix_nanos as int, at.offset_seconds as int) {
                Some(created) => {
                    &&& r matches Ok(text) && text@ == plan_sql_text(sql_view(*plan), created)
                    &&& rfc3339_reading(created) == read_as(at)
                    &&& spaceless(created)
                },
                None => r matches Err(PlanIoError::MalformedDirective(text)) && text@
                    == "created_at is outside the range of RFC 3339"@,
            }
        }),
{
    let created = match format_rfc3339(plan.metadata.created_at) {
        Some(text) => text,
        None => {
            return Err(
                PlanIoError::MalformedDirective(
                    "created_at is outside the range of RFC 3339".to_owned(),
                ),
            );
        },
    };
    let ghost p = sql_view(*plan);
    let mut out = String::new();
    let mut words: Vec<String> = Vec::new();
    words.push("plan".to_owned());
    assert(texts(words@) =~= seq!["plan"@]);
    let short = plan.id.short();
    push_word(&mut words, "id", short.as_str());
    push_word(&mut words, "version", plan.metadata.pgevolve_version.as_str());
    let ruleset = u32_text(plan.metadata.planner_ruleset_version);
    push_word(&mut words, "ruleset", ruleset.as_str());
    push_word(&mut words, "created", created.as_str());
    assert(texts(words@) =~= plan_words(p, created@));
    append_directive(&mut out, &words);
    match &plan.metadata.source_rev {
        Some(rev) => {
            let mut rev_words: Vec<String> = Vec::new();
            push_word(&mut rev_words, "source_rev", rev.as_str());
            assert(texts(rev_words@) =~= seq![word("source_rev"@, rev@)]);
            append_directive(&mut out, &rev_words);
        },
        None => {},
    }
    let mut target_words: Vec<String> = Vec::new();
    push_word(&mut target_words, "target", plan.metadata.target_identity.as_str());
    assert(texts(target_words@) =~= seq![word("target"@, p.target)]);
    append_directive(&mut out, &target_words);
    let count = u32_text(plan.intents.len() as u32);
    let mut count_words: Vec<String> = Vec::new();
    push_word(&mut count_words, "intents_required", count.as_str());
    assert(texts(count_words@) =~= seq![
        word("intents_required"@, decimal_nat(p.intents_required as nat)),
    ]);
    append_directive(&mut out, &count_words);
    assert(out@ =~= header_text(p, created@));
    append_groups(&mut out, &plan.groups);
    Ok(out)
}

} // verus!
