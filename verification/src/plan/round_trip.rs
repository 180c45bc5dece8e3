//! Writing a plan and reading it gives the plan back.

use crate::lines::{begins, holds, is_space, lines_of, parts_of, trimmed_end};
use crate::plan::deserialize::{
    body_text, closed_group, closing, directive, drafted, flushed, group_pair, new_group, new_step,
    nothing_read, placement, plan_in, plan_pair, scan_line, reason_of, step_pair, with_reason,
    with_reasons, PartialModel, ScanModel, StepDraft,
};
use crate::plan::directives::{run, Pair};
use crate::plan::dollar_quotes::{marker, open_tag, still_open};
use crate::plan::grouping::GroupModel;
use crate::plan::kind_names::{kind_text, lemma_kind_names_are_words};
use crate::plan::plan::{
    destructive_count, intents_of, law_intent_ids_are_contiguous,
    law_intents_match_destructive_steps, lemma_intent_count, numbered, steps_of, IntentModel,
};
use crate::plan::raw_step::StepModel;
use crate::plan::reading_laws::{
    all_words, is_key, is_word, lemma_bare_directive, lemma_first_line, lemma_flag_reads_back,
    lemma_kind_reads_back, lemma_lines_append, lemma_number_reads_back, lemma_pair_directive,
    lemma_parts_join, lemma_run_append, lemma_targets_read_back, one_line, pair_words, plain_name,
    plain_pairs, whole_lines,
};
use crate::plan::rewrite::publications::flag_text;
use crate::plan::serialize::{
    directive_line, group_text, group_words, groups_text, header_text, plan_sql_text, plan_words,
    step_text, step_words, steps_text, target_list, word,
};
use crate::text::{decimal_nat, joined};
use crate::timestamp::{read_as, rfc3339_reading, spaceless};
use vstd::prelude::*;
use vstd::string::*;

verus! {

/// Reading a text from a state.
pub open spec fn scan_text(m: ScanModel, text: Seq<char>) -> Result<ScanModel, Seq<char>> {
    run(m, lines_of(text), |s: ScanModel, line: Seq<char>| scan_line(s, line))
}

/// Reading whole lines and a rest.
proof fn lemma_scan_append(m: ScanModel, a: Seq<char>, b: Seq<char>)
    requires
        whole_lines(a),
    ensures
        scan_text(m, a + b) == (match scan_text(m, a) {
            Ok(next) => scan_text(next, b),
            Err(e) => Err(e),
        }),
{
    lemma_lines_append(a, b);
    lemma_run_append(
        m,
        lines_of(a),
        lines_of(b),
        |s: ScanModel, line: Seq<char>| scan_line(s, line),
    );
}

/// Reading one line.
proof fn lemma_scan_one(m: ScanModel, line: Seq<char>)
    requires
        one_line(line),
    ensures
        scan_text(m, line + "\n"@) == scan_line(m, line),
        whole_lines(line + "\n"@),
{
    reveal_strlit("\n");
    let f = |s: ScanModel, line: Seq<char>| scan_line(s, line);
    lemma_first_line(line, Seq::empty());
    assert(line + "\n"@ + Seq::<char>::empty() =~= line + "\n"@);
    let lines = seq![line];
    assert(seq![line] + lines_of(Seq::<char>::empty()) =~= lines);
    assert(lines_of(line + "\n"@) == lines);
    assert(lines.drop_first() =~= Seq::empty());
    match scan_line(m, line) {
        Ok(next) => {
            assert(run(next, lines.drop_first(), f) == Ok::<ScanModel, Seq<char>>(next));
        },
        Err(e) => {},
    }
}

/// A line of a directive is one line, ends in no white space and begins as
/// directives do.
proof fn lemma_directive_line(words: Seq<Seq<char>>)
    requires
        words.len() > 0,
        all_words(words),
    ensures
        one_line(directive_line(words)),
        trimmed_end(directive_line(words)) == directive_line(words),
        begins(directive_line(words), "-- @pgevolve "@),
        directive_line(words).skip("-- @pgevolve "@.len() as int) == joined(words, " "@),
        directive_line(words).len() > 0,
{
    reveal_strlit("-- @pgevolve ");
    let prefix = "-- @pgevolve "@;
    let tail = joined(words, " "@);
    let line = directive_line(words);
    lemma_joined_words(words);
    assert(line.last() == tail.last());
    assert(line.take(prefix.len() as int) =~= prefix);
    assert(line.skip(prefix.len() as int) =~= tail);
    assert forall|i: int| 0 <= i < line.len() implies #[trigger] line[i] != '\n' by {
        if i >= prefix.len() {
            assert(line[i] == tail[i - prefix.len()]);
        }
    }
}

/// Words behind one space each hold no newline and end in no white space.
proof fn lemma_joined_words(words: Seq<Seq<char>>)
    requires
        words.len() > 0,
        all_words(words),
    ensures
        joined(words, " "@).len() > 0,
        !is_space(joined(words, " "@).last()),
        forall|i: int| 0 <= i < joined(words, " "@).len() ==> #[trigger] joined(words, " "@)[i]
            != '\n',
    decreases words.len(),
{
    reveal_strlit(" ");
    let s = joined(words, " "@);
    let last = words.last();
    assert(is_word(words[words.len() - 1]));
    assert(!is_space(last[last.len() - 1]));
    if words.len() == 1 {
        assert forall|i: int| 0 <= i < s.len() implies #[trigger] s[i] != '\n' by {
            assert(!is_space(last[i]));
        }
    } else {
        let rest = words.drop_last();
        assert forall|i: int| 0 <= i < rest.len() implies is_word(#[trigger] rest[i]) by {
            assert(rest[i] == words[i]);
        }
        lemma_joined_words(rest);
        let head = joined(rest, " "@);
        assert forall|i: int| 0 <= i < s.len() implies #[trigger] s[i] != '\n' by {
            if i < head.len() {
                assert(s[i] == head[i]);
            } else if i > head.len() {
                assert(s[i] == last[i - head.len() - 1]);
                assert(!is_space(last[i - head.len() - 1]));
            }
        }
        assert(s.last() == last.last());
    }
}

/// Reading a directive.
proof fn lemma_scan_directive(m: ScanModel, words: Seq<Seq<char>>)
    requires
        words.len() > 0,
        all_words(words),
        m.tag is None,
        open_tag(directive_line(words)) is None,
    ensures
        scan_text(m, directive_line(words) + "\n"@) == directive(flushed(m), joined(words, " "@)),
        whole_lines(directive_line(words) + "\n"@),
{
    lemma_directive_line(words);
    lemma_scan_one(m, directive_line(words));
}

/// The keys of directives are keys.
proof fn lemma_keys()
    ensures
        is_key("plan"@),
        is_key("id"@),
        is_key("version"@),
        is_key("ruleset"@),
        is_key("created"@),
        is_key("source_rev"@),
        is_key("target"@),
        is_key("intents_required"@),
        is_key("group"@),
        is_key("transactional"@),
        is_key("step"@),
        is_key("kind"@),
        is_key("destructive"@),
        is_key("intent_id"@),
        is_key("targets"@),
{
    reveal_strlit("plan");
    reveal_strlit("id");
    reveal_strlit("version");
    reveal_strlit("ruleset");
    reveal_strlit("created");
    reveal_strlit("source_rev");
    reveal_strlit("target");
    reveal_strlit("intents_required");
    reveal_strlit("group");
    reveal_strlit("transactional");
    reveal_strlit("step");
    reveal_strlit("kind");
    reveal_strlit("destructive");
    reveal_strlit("intent_id");
    reveal_strlit("targets");
}

/// The state after the `plan` directive.
pub open spec fn after_plan(m: ScanModel, p: PartialModel) -> ScanModel {
    ScanModel {
        id_short: Some(p.id_short),
        version: Some(p.version),
        ruleset: Some(p.ruleset),
        created: Some(p.created),
        ..m
    }
}

/// The pairs of the `plan` directive.
pub open spec fn plan_pairs(p: PartialModel, created: Seq<char>) -> Seq<Pair> {
    seq![
        ("id"@, p.id_short),
        ("version"@, p.version),
        ("ruleset"@, decimal_nat(p.ruleset as nat)),
        ("created"@, created),
    ]
}

proof fn lemma_plan_directive(m: ScanModel, p: PartialModel, created: Seq<char>)
    requires
        spaceless(p.id_short),
        spaceless(p.version),
        spaceless(created),
        rfc3339_reading(created) == read_as(p.created),
    ensures
        all_words(plan_words(p, created)),
        directive(m, joined(plan_words(p, created), " "@)) == Ok::<ScanModel, Seq<char>>(
            after_plan(m, p),
        ),
{
    lemma_keys();
    lemma_number_reads_back(p.ruleset);
    let later = plan_pairs(p, created);
    assert(plain_pairs(later));
    lemma_bare_directive("plan"@, later);
    assert(seq!["plan"@] + pair_words(later) =~= plan_words(p, created));
    let pairs = seq![("plan"@, ""@)] + later;
    reveal_strlit("plan");
    reveal_strlit("id");
    reveal_strlit("version");
    reveal_strlit("ruleset");
    reveal_strlit("created");
    let f = |s: ScanModel, q: Pair| plan_pair(s, q);
    let m1 = ScanModel { id_short: Some(""@), ..m };
    let m2 = ScanModel { id_short: Some(p.id_short), ..m };
    let m3 = ScanModel { version: Some(p.version), ..m2 };
    let m4 = ScanModel { ruleset: Some(p.ruleset), ..m3 };
    let m5 = ScanModel { created: Some(p.created), ..m4 };
    let r1 = pairs.drop_first();
    let r2 = r1.drop_first();
    let r3 = r2.drop_first();
    let r4 = r3.drop_first();
    let r5 = r4.drop_first();
    assert(r1[0] == ("id"@, p.id_short));
    assert(r2[0] == ("version"@, p.version));
    assert(r3[0] == ("ruleset"@, decimal_nat(p.ruleset as nat)));
    assert(r4[0] == ("created"@, created));
    assert("ruleset"@[0] == 'r' && "created"@[0] == 'c');
    assert("version"@[0] == 'v' && "plan"@[0] == 'p' && "id"@[0] == 'i');
    assert(f(m4, r4[0]) == Ok::<ScanModel, Seq<char>>(m5));
    assert(run(m, pairs, f) == run(m1, r1, f));
    assert(run(m1, r1, f) == run(m2, r2, f));
    assert(run(m2, r2, f) == run(m3, r3, f));
    assert(run(m3, r3, f) == run(m4, r4, f));
    assert(run(m4, r4, f) == run(m5, r5, f));
    assert(r5.len() == 0);
    assert(m5 =~= after_plan(m, p));
}

/// Directives of one pair.
proof fn lemma_single_directives(m: ScanModel, text: Seq<char>, n: u32)
    requires
        spaceless(text),
    ensures
        all_words(seq![word("source_rev"@, text)]),
        all_words(seq![word("target"@, text)]),
        all_words(seq![word("intents_required"@, decimal_nat(n as nat))]),
        directive(m, joined(seq![word("source_rev"@, text)], " "@)) == Ok::<ScanModel, Seq<char>>(
            ScanModel { source_rev: Some(text), ..m },
        ),
        directive(m, joined(seq![word("target"@, text)], " "@)) == Ok::<ScanModel, Seq<char>>(
            ScanModel { target: Some(text), ..m },
        ),
        directive(m, joined(seq![word("intents_required"@, decimal_nat(n as nat))], " "@)) == Ok::<
            ScanModel,
            Seq<char>,
        >(ScanModel { intents_required: Some(n), ..m }),
{
    lemma_keys();
    lemma_number_reads_back(n);
    let a = seq![("source_rev"@, text)];
    let b = seq![("target"@, text)];
    let c = seq![("intents_required"@, decimal_nat(n as nat))];
    assert(plain_pairs(a) && plain_pairs(b) && plain_pairs(c));
    lemma_pair_directive(a);
    lemma_pair_directive(b);
    lemma_pair_directive(c);
    assert(pair_words(a) =~= seq![word("source_rev"@, text)]);
    assert(pair_words(b) =~= seq![word("target"@, text)]);
    assert(pair_words(c) =~= seq![word("intents_required"@, decimal_nat(n as nat))]);
    reveal_strlit("plan");
    reveal_strlit("source_rev");
    reveal_strlit("target");
    reveal_strlit("intents_required");
    assert("source_rev"@.len() == 10 && "target"@.len() == 6 && "intents_required"@.len() == 16);
    assert("plan"@.len() == 4);
}

proof fn lemma_group_directive(m: ScanModel, g: GroupModel)
    ensures
        all_words(group_words(g)),
        directive(m, joined(group_words(g), " "@)) == Ok::<ScanModel, Seq<char>>(
            ScanModel {
                group: Some(GroupModel { steps: Seq::empty(), ..g }),
                ..closed_group(m)
            },
        ),
{
    lemma_keys();
    lemma_number_reads_back(g.id);
    lemma_flag_reads_back(g.transactional);
    let later = seq![
        ("id"@, decimal_nat(g.id as nat)),
        ("transactional"@, flag_text(g.transactional)),
    ];
    assert(plain_pairs(later));
    lemma_bare_directive("group"@, later);
    assert(seq!["group"@] + pair_words(later) =~= group_words(g));
    let pairs = seq![("group"@, ""@)] + later;
    reveal_strlit("plan");
    reveal_strlit("source_rev");
    reveal_strlit("target");
    reveal_strlit("intents_required");
    reveal_strlit("group");
    reveal_strlit("id");
    reveal_strlit("transactional");
    assert("group"@.len() == 5 && "id"@.len() == 2 && "transactional"@.len() == 13);
    assert("plan"@.len() == 4 && "source_rev"@.len() == 10 && "target"@.len() == 6);
    assert("intents_required"@.len() == 16);
    let f = |s: GroupModel, q: Pair| group_pair(s, q);
    let g1 = GroupModel { id: g.id, ..new_group() };
    let g2 = GroupModel { transactional: g.transactional, ..g1 };
    let r1 = pairs.drop_first();
    let r2 = r1.drop_first();
    let r3 = r2.drop_first();
    assert(r1[0] == later[0]);
    assert(r2[0] == later[1]);
    assert(run(new_group(), pairs, f) == run(new_group(), r1, f));
    assert(run(new_group(), r1, f) == run(g1, r2, f));
    assert(run(g1, r2, f) == run(g2, r3, f));
    assert(r3.len() == 0);
    assert(g2 =~= GroupModel { steps: Seq::empty(), ..g });
}

/// The pairs of the `step` directive.
pub open spec fn step_pairs(s: StepModel) -> Seq<Pair> {
    let a = seq![
        ("step"@, decimal_nat(s.step_no as nat)),
        ("kind"@, kind_text(s.kind)),
        ("destructive"@, flag_text(s.destructive)),
    ];
    let b = match s.intent_id {
        Some(id) => a.push(("intent_id"@, decimal_nat(id as nat))),
        None => a,
    };
    b.push(("targets"@, target_list(s.targets)))
}

/// What the `step` directive says of a step.
pub open spec fn draft_of(s: StepModel) -> StepDraft {
    StepDraft {
        step_no: s.step_no,
        kind: Some(s.kind),
        destructive: s.destructive,
        intent_id: s.intent_id,
        targets: s.targets,
    }
}

/// Every target's name is read as it is written.
pub open spec fn plain_targets(s: StepModel) -> bool {
    forall|i: int| 0 <= i < s.targets.len() ==> plain_name(#[trigger] s.targets[i])
}

proof fn lemma_step_pairs(s: StepModel)
    requires
        plain_targets(s),
    ensures
        plain_pairs(step_pairs(s)),
        pair_words(step_pairs(s)) == step_words(s),
        run(new_step(), step_pairs(s), |d: StepDraft, p: Pair| step_pair(d, p)) == Ok::<
            StepDraft,
            Seq<char>,
        >(draft_of(s)),
{
    lemma_keys();
    lemma_number_reads_back(s.step_no);
    lemma_flag_reads_back(s.destructive);
    lemma_kind_reads_back(s.kind);
    lemma_kind_names_are_words(s.kind);
    lemma_targets_read_back(s.targets);
    match s.intent_id {
        Some(id) => lemma_number_reads_back(id),
        None => {},
    }
    let pairs = step_pairs(s);
    assert(plain_pairs(pairs));
    assert(pair_words(pairs) =~= step_words(s));
    reveal_strlit("step");
    reveal_strlit("kind");
    reveal_strlit("destructive");
    reveal_strlit("intent_id");
    reveal_strlit("targets");
    assert("step"@[0] == 's' && "kind"@[0] == 'k' && "destructive"@[0] == 'd');
    assert("intent_id"@[0] == 'i' && "targets"@[0] == 't');
    let f = |d: StepDraft, q: Pair| step_pair(d, q);
    let d1 = StepDraft { step_no: s.step_no, ..new_step() };
    let d2 = StepDraft { kind: Some(s.kind), ..d1 };
    let d3 = StepDraft { destructive: s.destructive, ..d2 };
    let r1 = pairs.drop_first();
    let r2 = r1.drop_first();
    let r3 = r2.drop_first();
    assert(pairs[0] == ("step"@, decimal_nat(s.step_no as nat)));
    assert(r1[0] == ("kind"@, kind_text(s.kind)));
    assert(r2[0] == ("destructive"@, flag_text(s.destructive)));
    assert(run(new_step(), pairs, f) == run(d1, r1, f));
    assert(run(d1, r1, f) == run(d2, r2, f));
    assert(run(d2, r2, f) == run(d3, r3, f));
    match s.intent_id {
        Some(id) => {
            let d4 = StepDraft { intent_id: Some(id), ..d3 };
            let d5 = StepDraft { targets: s.targets, ..d4 };
            let r4 = r3.drop_first();
            let r5 = r4.drop_first();
            assert(r3[0] == ("intent_id"@, decimal_nat(id as nat)));
            assert(r4[0] == ("targets"@, target_list(s.targets)));
            assert(run(d3, r3, f) == run(d4, r4, f));
            assert(run(d4, r4, f) == run(d5, r5, f));
            assert(r5.len() == 0);
            assert(d5 =~= draft_of(s));
        },
        None => {
            let d4 = StepDraft { targets: s.targets, ..d3 };
            let r4 = r3.drop_first();
            assert(r3[0] == ("targets"@, target_list(s.targets)));
            assert(run(d3, r3, f) == run(d4, r4, f));
            assert(r4.len() == 0);
            assert(d4 =~= draft_of(s));
        },
    }
}

/// A step without its reason and its SQL.
pub open spec fn bare_step(s: StepModel) -> StepModel {
    StepModel { destructive_reason: None, sql: ""@, ..s }
}

proof fn lemma_step_directive(m: ScanModel, s: StepModel)
    requires
        plain_targets(s),
        m.group is Some,
        s.transactional == placement(m.group->0.transactional),
    ensures
        all_words(step_words(s)),
        step_words(s).len() > 0,
        directive(m, joined(step_words(s), " "@)) == Ok::<ScanModel, Seq<char>>(
            ScanModel { step: Some((bare_step(s), Seq::empty())), ..m },
        ),
{
    lemma_step_pairs(s);
    let pairs = step_pairs(s);
    lemma_pair_directive(pairs);
    reveal_strlit("plan");
    reveal_strlit("source_rev");
    reveal_strlit("target");
    reveal_strlit("intents_required");
    reveal_strlit("group");
    reveal_strlit("step");
    assert("step"@[0] == 's' && "step"@.len() == 4);
    assert("plan"@[0] == 'p' && "source_rev"@.len() == 10 && "target"@.len() == 6);
    assert("intents_required"@.len() == 16 && "group"@.len() == 5);
    assert(pairs[0].0 == "step"@);
    assert(drafted(draft_of(s), s.kind, m.group->0.transactional) =~= bare_step(s));
}

/// Lines that are all read as SQL, none lost, with no literal open at the end,
/// where the literal of `tag` is open at their beginning.
///
/// Outside of a literal an empty line, a directive, `BEGIN;` and `COMMIT;` are
/// not read as SQL.
pub open spec fn all_kept(lines: Seq<Seq<char>>, tag: Option<Seq<char>>) -> bool
    decreases lines.len(),
{
    if lines.len() == 0 {
        tag is None
    } else {
        let line = lines[0];
        let shown = trimmed_end(line);
        match tag {
            Some(t) => all_kept(
                lines.drop_first(),
                if holds(line, closing(t)) {
                    None
                } else {
                    Some(t)
                },
            ),
            None => shown.len() > 0 && match open_tag(line) {
                Some(t) => all_kept(lines.drop_first(), Some(t)),
                None => !begins(shown, "-- @pgevolve "@) && shown != "BEGIN;"@ && shown
                    != "COMMIT;"@ && all_kept(lines.drop_first(), None),
            },
        }
    }
}

/// SQL that is read as it is written: it is empty, or all its lines are read as
/// SQL. No line ends in `\r`, which would count as part of the line ending.
pub open spec fn plain_sql(sql: Seq<char>) -> bool {
    sql.len() == 0 || {
        &&& all_kept(parts_of(sql, '\n'), None)
        &&& forall|i: int|
            0 <= i < parts_of(sql, '\n').len() ==> no_return_at_end(
                #[trigger] parts_of(sql, '\n')[i],
            )
    }
}

/// Whether no `\r` stands at the end.
pub open spec fn no_return_at_end(line: Seq<char>) -> bool {
    line.len() > 0 ==> line.last() != '\r'
}

/// Reading lines that are all kept appends them to the step's SQL.
proof fn lemma_scan_kept(
    m: ScanModel,
    lines: Seq<Seq<char>>,
    step: StepModel,
    body: Seq<Seq<char>>,
)
    requires
        m.step == Some((step, body)),
        all_kept(lines, m.tag),
    ensures
        run(m, lines, |s: ScanModel, line: Seq<char>| scan_line(s, line)) == Ok::<
            ScanModel,
            Seq<char>,
        >(ScanModel { step: Some((step, body + lines)), tag: None, ..m }),
    decreases lines.len(),
{
    let f = |s: ScanModel, line: Seq<char>| scan_line(s, line);
    if lines.len() == 0 {
        assert(body + lines =~= body);
        assert(m =~= ScanModel { step: Some((step, body + lines)), tag: None, ..m });
    } else {
        let line = lines[0];
        let rest = lines.drop_first();
        assert(scan_line(m, line) is Ok);
        let next = scan_line(m, line)->Ok_0;
        assert(next.step == Some((step, body.push(line))));
        assert(all_kept(rest, next.tag));
        lemma_scan_kept(next, rest, step, body.push(line));
        assert(body.push(line) + rest =~= body + lines);
        assert(run(m, lines, f) == run(next, rest, f));
    }
}

/// The last of lines that are all kept is not empty.
proof fn lemma_kept_last(lines: Seq<Seq<char>>, tag: Option<Seq<char>>)
    requires
        all_kept(lines, tag),
        lines.len() > 0,
    ensures
        lines.last().len() > 0,
    decreases lines.len(),
{
    let line = lines[0];
    let rest = lines.drop_first();
    if rest.len() > 0 {
        assert(rest.last() == lines.last());
        match tag {
            Some(t) => lemma_kept_last(
                rest,
                if holds(line, closing(t)) {
                    None
                } else {
                    Some(t)
                },
            ),
            None => match open_tag(line) {
                Some(t) => lemma_kept_last(rest, Some(t)),
                None => lemma_kept_last(rest, None),
            },
        }
    } else {
        match tag {
            Some(t) => {
                reveal_strlit("$");
                let next = if holds(line, closing(t)) {
                    None
                } else {
                    Some(t)
                };
                assert(all_kept(rest, next));
                assert(holds(line, closing(t)));
                assert(closing(t).len() >= 2);
            },
            None => {
                assert(line.len() > 0) by {
                    if line.len() == 0 {
                        assert(trimmed_end(line).len() == 0);
                    }
                }
            },
        }
    }
}

/// The lines of a text and a newline are its parts between newlines.
proof fn lemma_sql_lines(sql: Seq<char>)
    requires
        forall|i: int|
            0 <= i < parts_of(sql, '\n').len() ==> no_return_at_end(
                #[trigger] parts_of(sql, '\n')[i],
            ),
    ensures
        lines_of(sql + "\n"@) == parts_of(sql, '\n'),
    decreases sql.len(),
{
    reveal_strlit("\n");
    crate::lines::lemma_before_first(sql, '\n');
    let n = crate::lines::before_first(sql, '\n') as int;
    let parts = parts_of(sql, '\n');
    if n < sql.len() {
        let first = sql.take(n);
        let rest = sql.skip(n + 1);
        assert(parts =~= seq![first] + parts_of(rest, '\n'));
        assert(parts[0] == first);
        assert(no_return_at_end(parts[0]));
        assert forall|i: int| 0 <= i < parts_of(rest, '\n').len() implies no_return_at_end(
            #[trigger] parts_of(rest, '\n')[i],
        ) by {
            assert(parts[i + 1] == parts_of(rest, '\n')[i]);
        }
        lemma_sql_lines(rest);
        assert(one_line(first)) by {
            assert forall|i: int| 0 <= i < first.len() implies #[trigger] first[i] != '\n' by {
                assert(first[i] == sql[i]);
            }
        }
        lemma_first_line(first, rest + "\n"@);
        assert(sql + "\n"@ =~= first + "\n"@ + (rest + "\n"@));
    } else {
        assert(parts =~= seq![sql]);
        assert(parts[0] == sql);
        assert(no_return_at_end(parts[0]));
        lemma_first_line(sql, Seq::empty());
        assert(sql + "\n"@ + Seq::<char>::empty() =~= sql + "\n"@);
        assert(seq![sql] + lines_of(Seq::<char>::empty()) =~= parts);
    }
}

/// Reading the SQL of a step: the step is then complete as it was written.
proof fn lemma_scan_sql(m: ScanModel, step: StepModel, sql: Seq<char>)
    requires
        m.step == Some((step, Seq::<Seq<char>>::empty())),
        m.tag is None,
        plain_sql(sql),
    ensures
        scan_text(m, sql + "\n"@) is Ok,
        ({
            let next = scan_text(m, sql + "\n"@)->Ok_0;
            &&& next.tag is None
            &&& next.step matches Some((read, body)) && read == step && body_text(body) == sql
            &&& next == (ScanModel { step: next.step, ..m })
        }),
{
    reveal_strlit("\n");
    let f = |s: ScanModel, line: Seq<char>| scan_line(s, line);
    if sql.len() == 0 {
        let line = Seq::<char>::empty();
        assert(sql + "\n"@ =~= line + "\n"@);
        lemma_scan_one(m, line);
        assert(scan_line(m, line) == Ok::<ScanModel, Seq<char>>(m));
        assert(body_text(Seq::empty()) =~= sql);
    } else {
        let parts = parts_of(sql, '\n');
        lemma_sql_lines(sql);
        lemma_scan_kept(m, parts, step, Seq::empty());
        assert("\n"@ =~= seq!['\n']);
        lemma_parts_join(sql, '\n', "\n"@);
        lemma_kept_last(parts, None);
        let last = parts.last();
        assert(parts[parts.len() - 1][last.len() - 1] != '\n');
        assert(sql.last() != '\n');
        assert(Seq::<Seq<char>>::empty() + parts =~= parts);
        assert(body_text(parts) == sql);
    }
}

/// A step without its reason.
pub open spec fn unreasoned_step(s: StepModel) -> StepModel {
    StepModel { destructive_reason: None, ..s }
}

/// Steps without their reasons.
pub open spec fn unreasoned_steps(steps: Seq<StepModel>) -> Seq<StepModel> {
    steps.map_values(|s: StepModel| unreasoned_step(s))
}

/// A step of a group that reads back: it runs as its group does, its targets'
/// names and its SQL are read as they are written, and its directive opens no
/// dollar-quoted literal.
pub open spec fn plain_step(s: StepModel, transactional: bool) -> bool {
    &&& s.transactional == placement(transactional)
    &&& plain_targets(s)
    &&& plain_sql(s.sql)
    &&& open_tag(directive_line(step_words(s))) is None
}

/// A state where a group is being read: nothing but the group's steps is left
/// to complete.
pub open spec fn in_group(m: ScanModel, base: ScanModel, g: GroupModel) -> bool {
    &&& m.tag is None
    &&& flushed(m) == (ScanModel { group: Some(g), step: None, tag: None, ..base })
}

proof fn lemma_scan_step(m: ScanModel, base: ScanModel, g: GroupModel, s: StepModel)
    requires
        in_group(m, base, g),
        plain_step(s, g.transactional),
    ensures
        scan_text(m, step_text(s)) is Ok,
        in_group(
            scan_text(m, step_text(s))->Ok_0,
            base,
            GroupModel { steps: g.steps.push(unreasoned_step(s)), ..g },
        ),
        whole_lines(step_text(s)),
{
    reveal_strlit("\n");
    let line = directive_line(step_words(s)) + "\n"@;
    let after = flushed(m);
    lemma_step_directive(after, s);
    lemma_scan_directive(m, step_words(s));
    let m1 = ScanModel { step: Some((bare_step(s), Seq::empty())), ..after };
    assert(scan_text(m, line) == Ok::<ScanModel, Seq<char>>(m1));
    lemma_scan_append(m, line, s.sql + "\n"@);
    assert(line + (s.sql + "\n"@) =~= step_text(s));
    lemma_scan_sql(m1, bare_step(s), s.sql);
    let m2 = scan_text(m1, s.sql + "\n"@)->Ok_0;
    assert(StepModel { sql: s.sql, ..bare_step(s) } =~= unreasoned_step(s));
    assert(flushed(m2) =~= ScanModel {
        group: Some(GroupModel { steps: g.steps.push(unreasoned_step(s)), ..g }),
        step: None,
        tag: None,
        ..base
    });
}

proof fn lemma_scan_steps(m: ScanModel, base: ScanModel, g: GroupModel, steps: Seq<StepModel>)
    requires
        in_group(m, base, g),
        forall|i: int| 0 <= i < steps.len() ==> plain_step(#[trigger] steps[i], g.transactional),
    ensures
        scan_text(m, steps_text(steps)) is Ok,
        in_group(
            scan_text(m, steps_text(steps))->Ok_0,
            base,
            GroupModel { steps: g.steps + unreasoned_steps(steps), ..g },
        ),
        whole_lines(steps_text(steps)),
    decreases steps.len(),
{
    reveal_strlit("");
    if steps.len() == 0 {
        assert(steps_text(steps) =~= Seq::empty());
        assert(lines_of(steps_text(steps)) =~= Seq::empty());
        assert(g.steps + unreasoned_steps(steps) =~= g.steps);
    } else {
        let rest = steps.drop_last();
        let last = steps.last();
        assert forall|i: int| 0 <= i < rest.len() implies plain_step(
            #[trigger] rest[i],
            g.transactional,
        ) by {
            assert(rest[i] == steps[i]);
        }
        lemma_scan_steps(m, base, g, rest);
        let m1 = scan_text(m, steps_text(rest))->Ok_0;
        let g1 = GroupModel { steps: g.steps + unreasoned_steps(rest), ..g };
        assert(plain_step(steps[steps.len() - 1], g.transactional));
        lemma_scan_step(m1, base, g1, last);
        lemma_scan_append(m, steps_text(rest), step_text(last));
        assert(g1.steps.push(unreasoned_step(last)) =~= g.steps + unreasoned_steps(steps));
        let text = steps_text(steps);
        assert(text.len() > 0 ==> text.last() == step_text(last).last()) by {
            reveal_strlit("\n");
        }
    }
}

/// A group that reads back: all its steps do.
pub open spec fn plain_group(g: GroupModel) -> bool {
    forall|i: int| 0 <= i < g.steps.len() ==> plain_step(#[trigger] g.steps[i], g.transactional)
}

/// A group without the reasons of its steps.
pub open spec fn unreasoned_group(g: GroupModel) -> GroupModel {
    GroupModel { steps: unreasoned_steps(g.steps), ..g }
}

/// Groups without the reasons of their steps.
pub open spec fn unreasoned_groups(groups: Seq<GroupModel>) -> Seq<GroupModel> {
    groups.map_values(|g: GroupModel| unreasoned_group(g))
}

/// A state where groups have been read: with the group that is being read
/// complete, these are all.
pub open spec fn past_groups(m: ScanModel, base: ScanModel, groups: Seq<GroupModel>) -> bool {
    &&& m.tag is None
    &&& closed_group(flushed(m)) == (ScanModel {
        groups,
        group: None,
        step: None,
        tag: None,
        ..base
    })
}

/// A line without `$` opens no literal.
proof fn lemma_no_dollar(s: Seq<char>, active: Option<Seq<char>>)
    requires
        forall|i: int| 0 <= i < s.len() ==> #[trigger] s[i] != '$',
    ensures
        still_open(s, active) == active,
    decreases s.len(),
{
    if s.len() > 0 {
        let rest = s.drop_first();
        assert(marker(s) is None);
        assert forall|i: int| 0 <= i < rest.len() implies #[trigger] rest[i] != '$' by {
            assert(rest[i] == s[i + 1]);
        }
        lemma_no_dollar(rest, active);
    }
}

proof fn lemma_no_dollar_joined(words: Seq<Seq<char>>)
    requires
        forall|i: int, k: int|
            0 <= i < words.len() && 0 <= k < words[i].len() ==> #[trigger] words[i][k] != '$',
    ensures
        forall|k: int| 0 <= k < joined(words, " "@).len() ==> #[trigger] joined(words, " "@)[k]
            != '$',
    decreases words.len(),
{
    reveal_strlit(" ");
    if words.len() == 1 {
        assert(joined(words, " "@) == words[0]);
    } else if words.len() > 1 {
        let rest = words.drop_last();
        assert forall|i: int, k: int|
            0 <= i < rest.len() && 0 <= k < rest[i].len() implies #[trigger] rest[i][k] != '$' by {
            assert(words[i][k] != '$');
        }
        lemma_no_dollar_joined(rest);
        let s = joined(words, " "@);
        let head = joined(rest, " "@);
        let last = words.last();
        assert forall|k: int| 0 <= k < s.len() implies #[trigger] s[k] != '$' by {
            if k < head.len() {
                assert(s[k] == head[k]);
            } else if k > head.len() {
                assert(s[k] == last[k - head.len() - 1]);
                assert(words[words.len() - 1][k - head.len() - 1] != '$');
            }
        }
    }
}

/// The directives that hold nothing but numbers and flags open no literal.
proof fn lemma_quiet_directives(g: GroupModel, n: u32)
    ensures
        open_tag(directive_line(group_words(g))) is None,
        open_tag(
            directive_line(seq![word("intents_required"@, decimal_nat(n as nat))]),
        ) is None,
{
    reveal_strlit("-- @pgevolve ");
    reveal_strlit("=");
    reveal_strlit("group");
    reveal_strlit("id");
    reveal_strlit("transactional");
    reveal_strlit("intents_required");
    reveal_strlit("true");
    reveal_strlit("false");
    crate::plan::reading_laws::lemma_digits_read_back(g.id as nat);
    crate::plan::reading_laws::lemma_digits_read_back(n as nat);
    let a = group_words(g);
    let b = seq![word("intents_required"@, decimal_nat(n as nat))];
    lemma_quiet_word("id"@, decimal_nat(g.id as nat));
    lemma_quiet_word("transactional"@, flag_text(g.transactional));
    lemma_quiet_word("intents_required"@, decimal_nat(n as nat));
    assert forall|i: int, k: int|
        0 <= i < a.len() && 0 <= k < a[i].len() implies #[trigger] a[i][k] != '$' by {
        if i == 0 {
            assert(a[0] == "group"@);
        } else if i == 1 {
            assert(a[1] == word("id"@, decimal_nat(g.id as nat)));
        } else {
            assert(a[2] == word("transactional"@, flag_text(g.transactional)));
        }
    }
    lemma_no_dollar_joined(a);
    lemma_no_dollar_joined(b);
    lemma_quiet_line(a);
    lemma_quiet_line(b);
}

proof fn lemma_quiet_word(key: Seq<char>, value: Seq<char>)
    requires
        forall|i: int| 0 <= i < key.len() ==> #[trigger] key[i] != '$',
        forall|i: int| 0 <= i < value.len() ==> #[trigger] value[i] != '$',
    ensures
        forall|i: int| 0 <= i < word(key, value).len() ==> #[trigger] word(key, value)[i] != '$',
{
    reveal_strlit("=");
    let s = word(key, value);
    assert forall|i: int| 0 <= i < s.len() implies #[trigger] s[i] != '$' by {
        if i < key.len() {
            assert(s[i] == key[i]);
        } else if i > key.len() {
            assert(s[i] == value[i - key.len() - 1]);
        }
    }
}

proof fn lemma_quiet_line(words: Seq<Seq<char>>)
    requires
        forall|k: int| 0 <= k < joined(words, " "@).len() ==> #[trigger] joined(words, " "@)[k]
            != '$',
    ensures
        open_tag(directive_line(words)) is None,
{
    reveal_strlit("-- @pgevolve ");
    let line = directive_line(words);
    let prefix = "-- @pgevolve "@;
    assert forall|i: int| 0 <= i < line.len() implies #[trigger] line[i] != '$' by {
        if i >= prefix.len() {
            assert(line[i] == joined(words, " "@)[i - prefix.len()]);
        }
    }
    lemma_no_dollar(line, None);
}

/// Reading `BEGIN;` and `COMMIT;`.
proof fn lemma_scan_frames(m: ScanModel)
    requires
        m.tag is None,
    ensures
        scan_text(m, "BEGIN;\n"@) == Ok::<ScanModel, Seq<char>>(m),
        scan_text(m, "COMMIT;\n"@) == Ok::<ScanModel, Seq<char>>(closed_group(flushed(m))),
        whole_lines("BEGIN;\n"@),
        whole_lines("COMMIT;\n"@),
        "BEGIN;\n"@.len() > 0,
        "COMMIT;\n"@.len() > 0,
{
    reveal_strlit("BEGIN;\n");
    reveal_strlit("COMMIT;\n");
    reveal_strlit("BEGIN;");
    reveal_strlit("COMMIT;");
    reveal_strlit("-- @pgevolve ");
    reveal_strlit("\n");
    let a = "BEGIN;"@;
    let b = "COMMIT;"@;
    assert(a + "\n"@ =~= "BEGIN;\n"@);
    assert(b + "\n"@ =~= "COMMIT;\n"@);
    lemma_scan_one(m, a);
    lemma_scan_one(m, b);
    assert(trimmed_end(a) == a);
    assert(trimmed_end(b) == b);
    lemma_no_dollar(a, None);
    lemma_no_dollar(b, None);
    assert(a.len() == 6 && b.len() == 7);
    assert(!begins(a, "-- @pgevolve "@));
    assert(!begins(b, "-- @pgevolve "@));
}

/// Reading two texts of whole lines.
proof fn lemma_scan_two(
    m: ScanModel,
    a: Seq<char>,
    b: Seq<char>,
    m1: ScanModel,
    m2: ScanModel,
)
    requires
        whole_lines(a),
        whole_lines(b),
        scan_text(m, a) == Ok::<ScanModel, Seq<char>>(m1),
        scan_text(m1, b) == Ok::<ScanModel, Seq<char>>(m2),
    ensures
        scan_text(m, a + b) == Ok::<ScanModel, Seq<char>>(m2),
        whole_lines(a + b),
{
    lemma_scan_append(m, a, b);
    if b.len() > 0 {
        assert((a + b).last() == b.last());
    } else {
        assert(a + b =~= a);
    }
}

/// Reading the head of a group: the group before is complete, this one begins.
proof fn lemma_scan_group_head(
    m: ScanModel,
    base: ScanModel,
    groups: Seq<GroupModel>,
    g: GroupModel,
)
    requires
        past_groups(m, base, groups),
    ensures
        ({
            let text = "\n"@ + directive_line(group_words(g)) + "\n"@;
            let next = scan_text(m, text)->Ok_0;
            &&& scan_text(m, text) is Ok
            &&& whole_lines(text)
            &&& in_group(
                next,
                ScanModel { groups, ..base },
                GroupModel { steps: Seq::empty(), ..g },
            )
        }),
{
    reveal_strlit("\n");
    let blank = "\n"@;
    let line = directive_line(group_words(g)) + "\n"@;
    lemma_scan_one(m, Seq::empty());
    assert(Seq::<char>::empty() + "\n"@ =~= blank);
    lemma_quiet_directives(g, 0);
    lemma_group_directive(flushed(m), g);
    lemma_scan_directive(m, group_words(g));
    let empty_group = GroupModel { steps: Seq::empty(), ..g };
    let m1 = ScanModel { group: Some(empty_group), ..closed_group(flushed(m)) };
    lemma_scan_two(m, blank, line, m, m1);
    assert(blank + line =~= "\n"@ + directive_line(group_words(g)) + "\n"@);
    let inner = ScanModel { groups, ..base };
    assert(flushed(m1) =~= ScanModel {
        group: Some(empty_group),
        step: None,
        tag: None,
        ..inner
    });
}

proof fn lemma_scan_group(
    m: ScanModel,
    base: ScanModel,
    groups: Seq<GroupModel>,
    g: GroupModel,
)
    requires
        past_groups(m, base, groups),
        plain_group(g),
    ensures
        scan_text(m, group_text(g)) is Ok,
        past_groups(
            scan_text(m, group_text(g))->Ok_0,
            base,
            groups.push(unreasoned_group(g)),
        ),
        whole_lines(group_text(g)),
        group_text(g).len() > 0,
{
    let head = "\n"@ + directive_line(group_words(g)) + "\n"@;
    let steps = steps_text(g.steps);
    let inner = ScanModel { groups, ..base };
    let empty_group = GroupModel { steps: Seq::empty(), ..g };
    lemma_scan_group_head(m, base, groups, g);
    let m1 = scan_text(m, head)->Ok_0;
    lemma_scan_frames(m1);
    lemma_scan_steps(m1, inner, empty_group, g.steps);
    let m2 = scan_text(m1, steps)->Ok_0;
    let full = GroupModel { steps: empty_group.steps + unreasoned_steps(g.steps), ..empty_group };
    assert(full =~= unreasoned_group(g));
    lemma_scan_frames(m2);
    let m3 = closed_group(flushed(m2));
    assert(m3 =~= ScanModel {
        groups: groups.push(unreasoned_group(g)),
        group: None,
        step: None,
        tag: None,
        ..base
    });
    assert(closed_group(flushed(m3)) == m3);
    assert(head.len() > 0) by {
        reveal_strlit("\n");
    }
    if g.transactional {
        let begin = "BEGIN;\n"@;
        let commit = "COMMIT;\n"@;
        lemma_scan_two(m, head, begin, m1, m1);
        lemma_scan_two(m, head + begin, steps, m1, m2);
        lemma_scan_two(m, head + begin + steps, commit, m2, m3);
        assert(group_text(g) == head + begin + steps + commit);
    } else {
        lemma_scan_two(m, head, steps, m1, m2);
        assert(group_text(g) == head + steps);
    }
}

proof fn lemma_scan_groups(m: ScanModel, base: ScanModel, groups: Seq<GroupModel>)
    requires
        past_groups(m, base, Seq::empty()),
        forall|i: int| 0 <= i < groups.len() ==> plain_group(#[trigger] groups[i]),
    ensures
        scan_text(m, groups_text(groups)) is Ok,
        past_groups(scan_text(m, groups_text(groups))->Ok_0, base, unreasoned_groups(groups)),
        whole_lines(groups_text(groups)),
    decreases groups.len(),
{
    reveal_strlit("");
    if groups.len() == 0 {
        assert(groups_text(groups) =~= Seq::empty());
        assert(lines_of(groups_text(groups)) =~= Seq::empty());
        assert(unreasoned_groups(groups) =~= Seq::empty());
    } else {
        let rest = groups.drop_last();
        let last = groups.last();
        assert forall|i: int| 0 <= i < rest.len() implies plain_group(#[trigger] rest[i]) by {
            assert(rest[i] == groups[i]);
        }
        lemma_scan_groups(m, base, rest);
        let m1 = scan_text(m, groups_text(rest))->Ok_0;
        assert(plain_group(groups[groups.len() - 1]));
        lemma_scan_group(m1, base, unreasoned_groups(rest), last);
        lemma_scan_append(m, groups_text(rest), group_text(last));
        assert(unreasoned_groups(rest).push(unreasoned_group(last)) =~= unreasoned_groups(groups));
        let text = groups_text(groups);
        assert(text.last() == group_text(last).last());
    }
}

/// What of a plan reads back from `plan.sql`: its values hold no white space,
/// its directives open no dollar-quoted literal, and its groups read back.
pub open spec fn plain_plan(p: PartialModel, created: Seq<char>) -> bool {
    &&& spaceless(p.id_short)
    &&& spaceless(p.version)
    &&& spaceless(p.target)
    &&& p.source_rev is Some ==> spaceless(p.source_rev->0)
    &&& open_tag(directive_line(plan_words(p, created))) is None
    &&& open_tag(directive_line(seq![word("target"@, p.target)])) is None
    &&& p.source_rev is Some ==> open_tag(
        directive_line(seq![word("source_rev"@, p.source_rev->0)]),
    ) is None
    &&& forall|i: int| 0 <= i < p.groups.len() ==> plain_group(#[trigger] p.groups[i])
}

/// The directives on the target and on the number of intents.
pub open spec fn tail_text(p: PartialModel) -> Seq<char> {
    directive_line(seq![word("target"@, p.target)]) + "\n"@ + (directive_line(
        seq![word("intents_required"@, decimal_nat(p.intents_required as nat))],
    ) + "\n"@)
}

proof fn lemma_scan_tail(m: ScanModel, p: PartialModel)
    requires
        m.tag is None,
        m.step is None,
        spaceless(p.target),
        open_tag(directive_line(seq![word("target"@, p.target)])) is None,
    ensures
        scan_text(m, tail_text(p)) == Ok::<ScanModel, Seq<char>>(
            ScanModel {
                target: Some(p.target),
                intents_required: Some(p.intents_required),
                ..m
            },
        ),
        whole_lines(tail_text(p)),
{
    let a = seq![word("target"@, p.target)];
    let b = seq![word("intents_required"@, decimal_nat(p.intents_required as nat))];
    lemma_quiet_directives(new_group(), p.intents_required);
    lemma_single_directives(m, p.target, 0);
    lemma_scan_directive(m, a);
    let m1 = ScanModel { target: Some(p.target), ..m };
    lemma_single_directives(m1, p.target, p.intents_required);
    lemma_scan_directive(m1, b);
    let m2 = ScanModel { intents_required: Some(p.intents_required), ..m1 };
    lemma_scan_two(m, directive_line(a) + "\n"@, directive_line(b) + "\n"@, m1, m2);
}

proof fn lemma_scan_source_rev(m: ScanModel, rev: Seq<char>)
    requires
        m.tag is None,
        m.step is None,
        spaceless(rev),
        open_tag(directive_line(seq![word("source_rev"@, rev)])) is None,
    ensures
        scan_text(m, directive_line(seq![word("source_rev"@, rev)]) + "\n"@) == Ok::<
            ScanModel,
            Seq<char>,
        >(ScanModel { source_rev: Some(rev), ..m }),
        whole_lines(directive_line(seq![word("source_rev"@, rev)]) + "\n"@),
{
    lemma_single_directives(m, rev, 0);
    lemma_scan_directive(m, seq![word("source_rev"@, rev)]);
}

proof fn lemma_scan_plan_line(m: ScanModel, p: PartialModel, created: Seq<char>)
    requires
        m.tag is None,
        m.step is None,
        plain_plan(p, created),
        spaceless(created),
        rfc3339_reading(created) == read_as(p.created),
    ensures
        scan_text(m, directive_line(plan_words(p, created)) + "\n"@) == Ok::<
            ScanModel,
            Seq<char>,
        >(after_plan(m, p)),
        whole_lines(directive_line(plan_words(p, created)) + "\n"@),
{
    lemma_plan_directive(m, p, created);
    lemma_scan_directive(m, plan_words(p, created));
}

proof fn lemma_scan_header(p: PartialModel, created: Seq<char>)
    requires
        plain_plan(p, created),
        spaceless(created),
        rfc3339_reading(created) == read_as(p.created),
    ensures
        scan_text(nothing_read(), header_text(p, created)) == Ok::<ScanModel, Seq<char>>(
            ScanModel {
                id_short: Some(p.id_short),
                version: Some(p.version),
                ruleset: Some(p.ruleset),
                created: Some(p.created),
                source_rev: p.source_rev,
                target: Some(p.target),
                intents_required: Some(p.intents_required),
                ..nothing_read()
            },
        ),
        whole_lines(header_text(p, created)),
{
    let m0 = nothing_read();
    let a = directive_line(plan_words(p, created)) + "\n"@;
    lemma_scan_plan_line(m0, p, created);
    let m1 = after_plan(m0, p);
    match p.source_rev {
        Some(rev) => {
            let r = directive_line(seq![word("source_rev"@, rev)]) + "\n"@;
            lemma_scan_source_rev(m1, rev);
            let m2 = ScanModel { source_rev: Some(rev), ..m1 };
            lemma_scan_tail(m2, p);
            let m3 = ScanModel {
                target: Some(p.target),
                intents_required: Some(p.intents_required),
                ..m2
            };
            lemma_scan_two(m0, a, r, m1, m2);
            lemma_scan_two(m0, a + r, tail_text(p), m2, m3);
            lemma_header_pieces(p, created, a + r);
        },
        None => {
            lemma_scan_tail(m1, p);
            let m3 = ScanModel {
                target: Some(p.target),
                intents_required: Some(p.intents_required),
                ..m1
            };
            lemma_scan_two(m0, a, tail_text(p), m1, m3);
            lemma_header_pieces(p, created, a);
        },
    }
}

proof fn lemma_header_pieces(p: PartialModel, created: Seq<char>, head: Seq<char>)
    requires
        head == (match p.source_rev {
            Some(rev) => directive_line(plan_words(p, created)) + "\n"@ + (directive_line(
                seq![word("source_rev"@, rev)],
            ) + "\n"@),
            None => directive_line(plan_words(p, created)) + "\n"@,
        }),
    ensures
        header_text(p, created) == head + tail_text(p),
{
    assert(header_text(p, created) =~= head + tail_text(p));
}

/// Reading `plan.sql` gives back what was written, but for the reasons of
/// destructive steps, which it does not carry.
///
/// It does not where a value holds white space, where a directive opens a
/// dollar-quoted literal, where a step runs otherwise than its group, where a
/// target's name needs quotes, and where a line of a step's SQL is not read as
/// SQL.
pub proof fn law_plan_sql_reads_back(p: PartialModel, created: Seq<char>)
    requires
        plain_plan(p, created),
        spaceless(created),
        rfc3339_reading(created) == read_as(p.created),
    ensures
        plan_in(plan_sql_text(p, created)) == Ok::<PartialModel, Seq<char>>(
            PartialModel { groups: unreasoned_groups(p.groups), ..p },
        ),
{
    lemma_scan_header(p, created);
    let m0 = nothing_read();
    let m1 = scan_text(m0, header_text(p, created))->Ok_0;
    assert(past_groups(m1, m1, Seq::empty()));
    lemma_scan_groups(m1, m1, p.groups);
    lemma_scan_append(m0, header_text(p, created), groups_text(p.groups));
    let m2 = scan_text(m1, groups_text(p.groups))->Ok_0;
    assert(closed_group(flushed(m2)) == (ScanModel {
        groups: unreasoned_groups(p.groups),
        ..m1
    }));
}

/// Whether a step is as the rewrite pass leaves it: without an intent, and
/// destructive exactly where it has a reason.
pub open spec fn unassigned(s: StepModel) -> bool {
    s.intent_id is None && s.destructive == s.destructive_reason is Some
}

/// The row of an id is where ids that count from one put it.
proof fn lemma_reason_of(intents: Seq<IntentModel>, from: int, j: int)
    requires
        0 <= from <= j < intents.len() <= u32::MAX,
        forall|k: int| 0 <= k < intents.len() ==> (#[trigger] intents[k]).id == k + 1,
    ensures
        reason_of(intents.skip(from), (j + 1) as u32) == Some(intents[j].reason),
    decreases j - from,
{
    let rest = intents.skip(from);
    assert(rest[0] == intents[from]);
    if from < j {
        assert(rest.drop_first() =~= intents.skip(from + 1));
        lemma_reason_of(intents, from + 1, j);
    }
}

/// Numbering steps, leaving their reasons out and taking them from the intents
/// gives the numbered steps back.
pub proof fn law_reasons_come_back(steps: Seq<StepModel>, i: int)
    requires
        steps.len() <= u32::MAX,
        forall|k: int| 0 <= k < steps.len() ==> unassigned(#[trigger] steps[k]),
        0 <= i < steps.len(),
    ensures
        with_reason(unreasoned_step(numbered(steps)[i]), intents_of(steps)) == numbered(steps)[i],
{
    let intents = intents_of(steps);
    assert(unassigned(steps[i]));
    lemma_intent_count(steps);
    if steps[i].destructive {
        law_intents_match_destructive_steps(steps, i);
        let n = destructive_count(steps.take(i + 1)) as int;
        assert forall|k: int| 0 <= k < intents.len() implies (#[trigger] intents[k]).id == k
            + 1 by {
            law_intent_ids_are_contiguous(steps, k);
        }
        lemma_reason_of(intents, 0, n - 1);
        assert(intents.skip(0) =~= intents);
    }
}

/// A step of a group stands somewhere among all steps.
proof fn lemma_step_place(groups: Seq<GroupModel>, g: int, k: int) -> (at: int)
    requires
        0 <= g < groups.len(),
        0 <= k < groups[g].steps.len(),
    ensures
        0 <= at < steps_of(groups).len(),
        steps_of(groups)[at] == groups[g].steps[k],
    decreases groups.len(),
{
    let rest = groups.drop_last();
    if g == groups.len() - 1 {
        steps_of(rest).len() as int + k
    } else {
        lemma_step_place(rest, g, k)
    }
}

/// A plan that was put together, written to its files and read back has its
/// groups again, reasons and all: `plan.sql` brings the steps without their
/// reasons, and the intents bring the reasons.
pub proof fn law_groups_come_back(given: Seq<GroupModel>, groups: Seq<GroupModel>)
    requires
        steps_of(given).len() <= u32::MAX,
        forall|k: int| 0 <= k < steps_of(given).len() ==> unassigned(#[trigger] steps_of(given)[k]),
        steps_of(groups) == numbered(steps_of(given)),
    ensures
        unreasoned_groups(groups).map_values(
            |g: GroupModel| with_reasons(g, intents_of(steps_of(given))),
        ) == groups,
{
    let steps = steps_of(given);
    let intents = intents_of(steps);
    let back = unreasoned_groups(groups).map_values(|g: GroupModel| with_reasons(g, intents));
    assert forall|g: int| 0 <= g < groups.len() implies #[trigger] back[g] == groups[g] by {
        assert forall|k: int| 0 <= k < groups[g].steps.len() implies #[trigger] back[g].steps[k]
            == groups[g].steps[k] by {
            let at = lemma_step_place(groups, g, k);
            law_reasons_come_back(steps, at);
        }
        assert(back[g].steps =~= groups[g].steps);
    }
    assert(back =~= groups);
}

} // verus!
