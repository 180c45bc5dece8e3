//! Reading a plan back.
//!
//! `plan.sql` is read line by line: `-- @pgevolve ...` lines are directives,
//! and the lines between them are the SQL of the step before. Inside a
//! dollar-quoted literal nothing is a directive: bodies of functions may hold
//! any text.

use crate::identifier::{QnameModel, QualifiedName};
use crate::ir::catalog::Catalog;
use crate::lines::{
    begins, begins_at, char_lists, chars_of, end_without_space, holds, holds_text, lines_of,
    list_between, split_lines, text_between, trimmed_end,
};
use crate::model::{models, opt_model};
use crate::plan::directives::{
    flag_of, kind_of, number_of, pair_views, pairs_of, parse_bool, parse_kind, parse_kv,
    parse_targets, parse_u32, run, targets_of, Pair,
};
use crate::plan::dollar_quotes::{detect_dollar_quote_open, open_tag, opt_chars};
use crate::plan::grouping::{GroupModel, TransactionGroup};
use crate::plan::io_error::PlanIoError;
use crate::plan::plan::{
    read_full_id, DestructiveIntent, IntentModel, LintWaiver, Plan, PlanId, PlanMetadata,
    RecordedFinding, StepOverride,
};
use crate::plan::raw_step::{RawStep, StepKind, StepModel, TransactionConstraint};
use crate::text::{join, joined, opt_text, text_eq, texts};
use crate::timestamp::{failed_with, parse_rfc3339, read_as, rfc3339_reading, Timestamp};
use vstd::prelude::*;
use vstd::string::*;

verus! {

/// What `plan.sql` says. The reasons of destructive steps are not in it: they
/// come from the intents.
#[derive(Debug, Clone, PartialEq, Eq)]
pub struct PartialPlan {
    /// `plan id=`, the short id.
    pub id_short: String,
    /// `version=`.
    pub pgevolve_version: String,
    /// `ruleset=`.
    pub planner_ruleset_version: u32,
    /// `source_rev=`, where it is there.
    pub source_rev: Option<String>,
    /// `target=`.
    pub target_identity: String,
    /// `intents_required=`.
    pub intents_required: u32,
    /// `created=`.
    pub created_at: Timestamp,
    /// The groups.
    pub groups: Vec<TransactionGroup>,
}

/// The model of what `plan.sql` says.
#[verifier::ext_equal]
pub struct PartialModel {
    /// The short id.
    pub id_short: Seq<char>,
    /// The version.
    pub version: Seq<char>,
    /// The ruleset version.
    pub ruleset: u32,
    /// The source revision.
    pub source_rev: Option<Seq<char>>,
    /// The target's identity.
    pub target: Seq<char>,
    /// The number of intents.
    pub intents_required: u32,
    /// When the plan was made.
    pub created: Timestamp,
    /// The groups.
    pub groups: Seq<GroupModel>,
}

impl View for PartialPlan {
    type V = PartialModel;

    open spec fn view(&self) -> PartialModel {
        PartialModel {
            id_short: self.id_short@,
            version: self.pgevolve_version@,
            ruleset: self.planner_ruleset_version,
            source_rev: opt_text(self.source_rev),
            target: self.target_identity@,
            intents_required: self.intents_required,
            created: self.created_at,
            groups: models(self.groups@),
        }
    }
}

/// What has been read so far.
struct Scan {
    id_short: Option<String>,
    version: Option<String>,
    ruleset: Option<u32>,
    created: Option<Timestamp>,
    source_rev: Option<String>,
    target: Option<String>,
    intents_required: Option<u32>,
    groups: Vec<TransactionGroup>,
    group: Option<TransactionGroup>,
    step: Option<(RawStep, Vec<String>)>,
    tag: Option<Vec<char>>,
}

/// The model of what has been read so far.
#[verifier::ext_equal]
pub struct ScanModel {
    /// The short id.
    pub id_short: Option<Seq<char>>,
    /// The version.
    pub version: Option<Seq<char>>,
    /// The ruleset version.
    pub ruleset: Option<u32>,
    /// When the plan was made.
    pub created: Option<Timestamp>,
    /// The source revision.
    pub source_rev: Option<Seq<char>>,
    /// The target's identity.
    pub target: Option<Seq<char>>,
    /// The number of intents.
    pub intents_required: Option<u32>,
    /// The groups that are complete.
    pub groups: Seq<GroupModel>,
    /// The group that is being read.
    pub group: Option<GroupModel>,
    /// The step that is being read, and the lines of its SQL.
    pub step: Option<(StepModel, Seq<Seq<char>>)>,
    /// The tag of the dollar-quoted literal that is open.
    pub tag: Option<Seq<char>>,
}

impl View for Scan {
    type V = ScanModel;

    closed spec fn view(&self) -> ScanModel {
        ScanModel {
            id_short: opt_text(self.id_short),
            version: opt_text(self.version),
            ruleset: self.ruleset,
            created: self.created,
            source_rev: opt_text(self.source_rev),
            target: opt_text(self.target),
            intents_required: self.intents_required,
            groups: models(self.groups@),
            group: opt_model(self.group),
            step: match self.step {
                Some((step, body)) => Some((step@, texts(body@))),
                None => None,
            },
            tag: opt_chars(self.tag),
        }
    }
}

/// Before anything is read.
pub open spec fn nothing_read() -> ScanModel {
    ScanModel {
        id_short: None,
        version: None,
        ruleset: None,
        created: None,
        source_rev: None,
        target: None,
        intents_required: None,
        groups: Seq::empty(),
        group: None,
        step: None,
        tag: None,
    }
}

/// A text without the newlines at its end.
pub open spec fn without_newlines(s: Seq<char>) -> Seq<char>
    decreases s.len(),
{
    if s.len() > 0 && s.last() == '\n' {
        without_newlines(s.drop_last())
    } else {
        s
    }
}

/// The SQL of a step, from its lines.
pub open spec fn body_text(body: Seq<Seq<char>>) -> Seq<char> {
    without_newlines(joined(body, "\n"@))
}

/// The step that is being read is complete: it goes to its group.
pub open spec fn flushed(m: ScanModel) -> ScanModel {
    match m.step {
        None => m,
        Some((step, body)) => ScanModel {
            step: None,
            group: match m.group {
                Some(g) => Some(
                    GroupModel {
                        steps: g.steps.push(StepModel { sql: body_text(body), ..step }),
                        ..g
                    },
                ),
                None => None,
            },
            ..m
        },
    }
}

/// The group that is being read is complete.
pub open spec fn closed_group(m: ScanModel) -> ScanModel {
    match m.group {
        Some(g) => ScanModel { group: None, groups: m.groups.push(g), ..m },
        None => m,
    }
}

/// One more line of the SQL of the step that is being read.
pub open spec fn with_body(m: ScanModel, line: Seq<char>) -> ScanModel {
    match m.step {
        Some((step, body)) => ScanModel { step: Some((step, body.push(line))), ..m },
        None => m,
    }
}

/// A pair of a `plan` directive.
pub open spec fn plan_pair(m: ScanModel, pair: Pair) -> Result<ScanModel, Seq<char>> {
    let (k, v) = pair;
    if k == "plan"@ || k == "id"@ {
        Ok(ScanModel { id_short: Some(v), ..m })
    } else if k == "version"@ {
        Ok(ScanModel { version: Some(v), ..m })
    } else if k == "ruleset"@ {
        match number_of(v) {
            Ok(n) => Ok(ScanModel { ruleset: Some(n), ..m }),
            Err(e) => Err(e),
        }
    } else if k == "created"@ {
        match rfc3339_reading(v) {
            Ok((nanos, offset)) => Ok(
                ScanModel {
                    created: Some(
                        Timestamp { unix_nanos: nanos as i128, offset_seconds: offset as i32 },
                    ),
                    ..m
                },
            ),
            Err(e) => Err("created="@ + v + ": "@ + e),
        }
    } else {
        Ok(m)
    }
}

/// A pair of a `group` directive.
pub open spec fn group_pair(g: GroupModel, pair: Pair) -> Result<GroupModel, Seq<char>> {
    let (k, v) = pair;
    if k == "id"@ {
        match number_of(v) {
            Ok(n) => Ok(GroupModel { id: n, ..g }),
            Err(e) => Err(e),
        }
    } else if k == "transactional"@ {
        match flag_of(v) {
            Ok(b) => Ok(GroupModel { transactional: b, ..g }),
            Err(e) => Err(e),
        }
    } else {
        Ok(g)
    }
}

/// A group of which nothing is known yet.
pub open spec fn new_group() -> GroupModel {
    GroupModel { id: 0, transactional: true, steps: Seq::empty() }
}

/// What a `step` directive has said so far.
#[verifier::ext_equal]
pub struct StepDraft {
    /// The step's number.
    pub step_no: u32,
    /// Its kind.
    pub kind: Option<StepKind>,
    /// Whether it is destructive.
    pub destructive: bool,
    /// Its intent.
    pub intent_id: Option<u32>,
    /// Its targets.
    pub targets: Seq<QnameModel>,
}

/// A step of which nothing is known yet.
pub open spec fn new_step() -> StepDraft {
    StepDraft {
        step_no: 0,
        kind: None,
        destructive: false,
        intent_id: None,
        targets: Seq::empty(),
    }
}

/// A pair of a `step` directive.
pub open spec fn step_pair(d: StepDraft, pair: Pair) -> Result<StepDraft, Seq<char>> {
    let (k, v) = pair;
    if k == "step"@ {
        match number_of(v) {
            Ok(n) => Ok(StepDraft { step_no: n, ..d }),
            Err(e) => Err(e),
        }
    } else if k == "kind"@ {
        match kind_of(v) {
            Ok(kind) => Ok(StepDraft { kind: Some(kind), ..d }),
            Err(e) => Err(e),
        }
    } else if k == "destructive"@ {
        match flag_of(v) {
            Ok(b) => Ok(StepDraft { destructive: b, ..d }),
            Err(e) => Err(e),
        }
    } else if k == "intent_id"@ {
        match number_of(v) {
            Ok(n) => Ok(StepDraft { intent_id: Some(n), ..d }),
            Err(e) => Err(e),
        }
    } else if k == "targets"@ {
        match targets_of(v) {
            Ok(targets) => Ok(StepDraft { targets, ..d }),
            Err(e) => Err(e),
        }
    } else {
        Ok(d)
    }
}

/// How a step of a group runs.
pub open spec fn placement(transactional: bool) -> TransactionConstraint {
    if transactional {
        TransactionConstraint::InTransaction
    } else {
        TransactionConstraint::OutsideTransaction
    }
}

/// The step that a draft describes, without its SQL.
pub open spec fn drafted(d: StepDraft, kind: StepKind, transactional: bool) -> StepModel {
    StepModel {
        step_no: d.step_no,
        kind,
        destructive: d.destructive,
        destructive_reason: None,
        intent_id: d.intent_id,
        targets: d.targets,
        sql: ""@,
        transactional: placement(transactional),
    }
}

/// A `step` directive.
pub open spec fn step_directive(m: ScanModel, pairs: Seq<Pair>) -> Result<ScanModel, Seq<char>> {
    match run(new_step(), pairs, |d: StepDraft, p: Pair| step_pair(d, p)) {
        Err(e) => Err(e),
        Ok(d) => match d.kind {
            None => Err("step missing kind"@),
            Some(kind) => match m.group {
                None => Err("step outside group"@),
                Some(g) => Ok(
                    ScanModel {
                        step: Some((drafted(d, kind, g.transactional), Seq::empty())),
                        ..m
                    },
                ),
            },
        },
    }
}

/// A `group` directive.
pub open spec fn group_directive(m: ScanModel, pairs: Seq<Pair>) -> Result<ScanModel, Seq<char>> {
    match run(new_group(), pairs, |g: GroupModel, p: Pair| group_pair(g, p)) {
        Err(e) => Err(e),
        Ok(g) => Ok(ScanModel { group: Some(g), ..closed_group(m) }),
    }
}

/// A directive, where the step before it is complete.
pub open spec fn directive(m: ScanModel, rest: Seq<char>) -> Result<ScanModel, Seq<char>> {
    match pairs_of(rest) {
        Err(e) => Err(e),
        Ok(pairs) => if pairs.len() == 0 {
            Err(rest)
        } else {
            let (head, value) = pairs[0];
            if head == "plan"@ {
                run(m, pairs, |s: ScanModel, p: Pair| plan_pair(s, p))
            } else if head == "source_rev"@ {
                Ok(ScanModel { source_rev: Some(value), ..m })
            } else if head == "target"@ {
                Ok(ScanModel { target: Some(value), ..m })
            } else if head == "intents_required"@ {
                match number_of(value) {
                    Ok(n) => Ok(ScanModel { intents_required: Some(n), ..m }),
                    Err(e) => Err(e),
                }
            } else if head == "group"@ {
                group_directive(m, pairs)
            } else if head == "step"@ {
                step_directive(m, pairs)
            } else {
                Err("unknown directive: "@ + head)
            }
        },
    }
}

/// The marker that closes a literal.
pub open spec fn closing(tag: Seq<char>) -> Seq<char> {
    "$"@ + tag + "$"@
}

/// One line of `plan.sql`.
pub open spec fn scan_line(m: ScanModel, line: Seq<char>) -> Result<ScanModel, Seq<char>> {
    let shown = trimmed_end(line);
    match m.tag {
        Some(tag) => Ok(
            ScanModel {
                tag: if holds(line, closing(tag)) {
                    None
                } else {
                    Some(tag)
                },
                ..with_body(m, line)
            },
        ),
        None => if shown.len() == 0 {
            Ok(m)
        } else {
            match open_tag(line) {
                Some(tag) => Ok(ScanModel { tag: Some(tag), ..with_body(m, line) }),
                None => if begins(shown, "-- @pgevolve "@) {
                    directive(flushed(m), shown.skip("-- @pgevolve "@.len() as int))
                } else if shown == "BEGIN;"@ {
                    Ok(m)
                } else if shown == "COMMIT;"@ {
                    Ok(closed_group(flushed(m)))
                } else {
                    Ok(with_body(m, line))
                },
            }
        },
    }
}

/// What is left to say at the end: everything but the source revision has to
/// be there.
pub open spec fn finished(m: ScanModel) -> Result<PartialModel, Seq<char>> {
    if m.id_short is None {
        Err("missing plan id"@)
    } else if m.version is None {
        Err("missing version"@)
    } else if m.ruleset is None {
        Err("missing ruleset"@)
    } else if m.target is None {
        Err("missing target"@)
    } else if m.intents_required is None {
        Err("missing intents_required"@)
    } else if m.created is None {
        Err("missing created"@)
    } else {
        Ok(
            PartialModel {
                id_short: m.id_short->0,
                version: m.version->0,
                ruleset: m.ruleset->0,
                source_rev: m.source_rev,
                target: m.target->0,
                intents_required: m.intents_required->0,
                created: m.created->0,
                groups: m.groups,
            },
        )
    }
}

/// What `plan.sql` says, or the text of the error.
pub open spec fn plan_in(s: Seq<char>) -> Result<PartialModel, Seq<char>> {
    match run(nothing_read(), lines_of(s), |m: ScanModel, line: Seq<char>| scan_line(m, line)) {
        Ok(m) => finished(closed_group(flushed(m))),
        Err(e) => Err(e),
    }
}

/// Where the newlines at the end of a text begin.
fn strip_newlines(s: String) -> (r: String)
    ensures
        r@ == without_newlines(s@),
{
    let chars = chars_of(s.as_str());
    let mut n: usize = chars.len();
    assert(chars@.take(n as int) =~= chars@);
    while n > 0 && chars[n - 1] == '\n'
        invariant
            n <= chars@.len(),
            without_newlines(chars@.take(n as int)) == without_newlines(chars@),
        decreases n,
    {
        assert(chars@.take(n as int).drop_last() =~= chars@.take(n - 1));
        n = n - 1;
    }
    let text = text_between(&chars, 0, n);
    assert(text@ =~= chars@.take(n as int));
    text
}

/// Completes the step that is being read.
fn flush_step(scan: Scan) -> (r: Scan)
    ensures
        r@ == flushed(scan@),
{
    let mut scan = scan;
    match scan.step {
        Some((step, body)) => {
            let mut step = step;
            step.sql = strip_newlines(join(&body, "\n"));
            match scan.group {
                Some(g) => {
                    let mut g = g;
                    let ghost before = models(g.steps@);
                    g.steps.push(step);
                    assert(models(g.steps@) =~= before.push(step@));
                    scan.group = Some(g);
                },
                None => {
                    scan.group = None;
                },
            }
            scan.step = None;
            scan
        },
        None => {
            scan.step = None;
            scan
        },
    }
}

/// Completes the group that is being read.
fn close_group(scan: Scan) -> (r: Scan)
    ensures
        r@ == closed_group(scan@),
{
    let mut scan = scan;
    match scan.group {
        Some(g) => {
            let ghost before = models(scan.groups@);
            scan.groups.push(g);
            assert(models(scan.groups@) =~= before.push(g@));
            scan.group = None;
            scan
        },
        None => {
            scan.group = None;
            scan
        },
    }
}

/// Appends a line to the SQL of the step that is being read.
fn push_body(scan: Scan, line: &Vec<char>) -> (r: Scan)
    ensures
        r@ == with_body(scan@, line@),
{
    let mut scan = scan;
    match scan.step {
        Some((step, body)) => {
            let mut body = body;
            let ghost before = texts(body@);
            let text = text_between(line, 0, line.len());
            assert(text@ =~= line@);
            body.push(text);
            assert(texts(body@) =~= before.push(text@));
            scan.step = Some((step, body));
            scan
        },
        None => {
            scan.step = None;
            scan
        },
    }
}

fn read_plan_pair(scan: Scan, key: &String, value: &String) -> (r: Result<Scan, String>)
    ensures
        match r {
            Ok(next) => plan_pair(scan@, (key@, value@)) == Ok::<ScanModel, Seq<char>>(next@),
            Err(e) => plan_pair(scan@, (key@, value@)) == Err::<ScanModel, Seq<char>>(e@),
        },
{
    let mut scan = scan;
    let k = key.as_str();
    let v = value.as_str();
    if text_eq(k, "plan") || text_eq(k, "id") {
        scan.id_short = Some(value.clone());
        Ok(scan)
    } else if text_eq(k, "version") {
        scan.version = Some(value.clone());
        Ok(scan)
    } else if text_eq(k, "ruleset") {
        match parse_u32(v) {
            Ok(n) => {
                scan.ruleset = Some(n);
                Ok(scan)
            },
            Err(e) => Err(e),
        }
    } else if text_eq(k, "created") {
        match parse_rfc3339(v) {
            Ok(t) => {
                scan.created = Some(t);
                Ok(scan)
            },
            Err(fault) => {
                let mut e = "created=".to_owned();
                e.append(v);
                e.append(": ");
                e.append(fault.as_str());
                Err(e)
            },
        }
    } else {
        Ok(scan)
    }
}

fn read_plan_directive(scan: Scan, pairs: &Vec<(String, String)>) -> (r: Result<Scan, String>)
    ensures
        match r {
            Ok(next) => run(
                scan@,
                pair_views(pairs@),
                |s: ScanModel, p: Pair| plan_pair(s, p),
            ) == Ok::<ScanModel, Seq<char>>(next@),
            Err(e) => run(scan@, pair_views(pairs@), |s: ScanModel, p: Pair| plan_pair(s, p))
                == Err::<ScanModel, Seq<char>>(e@),
        },
{
    let ghost f = |s: ScanModel, p: Pair| plan_pair(s, p);
    let ghost all = pair_views(pairs@);
    let ghost whole = run(scan@, all, f);
    let ghost start = scan@;
    let mut state = scan;
    let mut i: usize = 0;
    assert(all.skip(0) =~= all);
    while i < pairs.len()
        invariant
            i <= pairs@.len(),
            all == pair_views(pairs@),
            f == (|s: ScanModel, p: Pair| plan_pair(s, p)),
            whole == run(start, all, f),
            start == scan@,
            whole == run(state@, all.skip(i as int), f),
        decreases pairs@.len() - i,
    {
        assert(all.skip(i as int)[0] == (pairs@[i as int].0@, pairs@[i as int].1@));
        assert(all.skip(i as int).drop_first() =~= all.skip(i + 1));
        match read_plan_pair(state, &pairs[i].0, &pairs[i].1) {
            Ok(next) => {
                state = next;
            },
            Err(e) => {
                return Err(e);
            },
        }
        i = i + 1;
    }
    assert(all.skip(i as int).len() == 0);
    Ok(state)
}

fn read_group_pair(
    group: TransactionGroup,
    key: &str,
    value: &str,
) -> (r: Result<TransactionGroup, String>)
    ensures
        match r {
            Ok(next) => group_pair(group@, (key@, value@)) == Ok::<GroupModel, Seq<char>>(next@),
            Err(e) => group_pair(group@, (key@, value@)) == Err::<GroupModel, Seq<char>>(e@),
        },
{
    let mut group = group;
    if text_eq(key, "id") {
        match parse_u32(value) {
            Ok(n) => {
                group.id = n;
                Ok(group)
            },
            Err(e) => Err(e),
        }
    } else if text_eq(key, "transactional") {
        match parse_bool(value) {
            Ok(b) => {
                group.transactional = b;
                Ok(group)
            },
            Err(e) => Err(e),
        }
    } else {
        Ok(group)
    }
}

fn read_group_directive(scan: Scan, pairs: &Vec<(String, String)>) -> (r: Result<Scan, String>)
    ensures
        match r {
            Ok(next) => group_directive(scan@, pair_views(pairs@)) == Ok::<ScanModel, Seq<char>>(
                next@,
            ),
            Err(e) => group_directive(scan@, pair_views(pairs@)) == Err::<ScanModel, Seq<char>>(
                e@,
            ),
        },
{
    let ghost f = |g: GroupModel, p: Pair| group_pair(g, p);
    let ghost all = pair_views(pairs@);
    let mut group = TransactionGroup { id: 0, transactional: true, steps: Vec::new() };
    assert(group@ =~= new_group());
    let ghost whole = run(new_group(), all, f);
    let mut i: usize = 0;
    assert(all.skip(0) =~= all);
    while i < pairs.len()
        invariant
            i <= pairs@.len(),
            all == pair_views(pairs@),
            f == (|g: GroupModel, p: Pair| group_pair(g, p)),
            whole == run(new_group(), all, f),
            whole == run(group@, all.skip(i as int), f),
        decreases pairs@.len() - i,
    {
        assert(all.skip(i as int)[0] == (pairs@[i as int].0@, pairs@[i as int].1@));
        assert(all.skip(i as int).drop_first() =~= all.skip(i + 1));
        match read_group_pair(group, pairs[i].0.as_str(), pairs[i].1.as_str()) {
            Ok(next) => {
                group = next;
            },
            Err(e) => {
                return Err(e);
            },
        }
        i = i + 1;
    }
    assert(all.skip(i as int).len() == 0);
    let mut next = close_group(scan);
    next.group = Some(group);
    Ok(next)
}

/// What a `step` directive has said so far.
struct Draft {
    step_no: u32,
    kind: Option<StepKind>,
    destructive: bool,
    intent_id: Option<u32>,
    targets: Vec<QualifiedName>,
}

impl View for Draft {
    type V = StepDraft;

    closed spec fn view(&self) -> StepDraft {
        StepDraft {
            step_no: self.step_no,
            kind: self.kind,
            destructive: self.destructive,
            intent_id: self.intent_id,
            targets: models(self.targets@),
        }
    }
}

fn read_step_pair(draft: Draft, key: &str, value: &str) -> (r: Result<Draft, String>)
    ensures
        match r {
            Ok(next) => step_pair(draft@, (key@, value@)) == Ok::<StepDraft, Seq<char>>(next@),
            Err(e) => step_pair(draft@, (key@, value@)) == Err::<StepDraft, Seq<char>>(e@),
        },
{
    let mut draft = draft;
    if text_eq(key, "step") {
        match parse_u32(value) {
            Ok(n) => {
                draft.step_no = n;
                Ok(draft)
            },
            Err(e) => Err(e),
        }
    } else if text_eq(key, "kind") {
        match parse_kind(value) {
            Ok(kind) => {
                draft.kind = Some(kind);
                Ok(draft)
            },
            Err(e) => Err(e),
        }
    } else if text_eq(key, "destructive") {
        match parse_bool(value) {
            Ok(b) => {
                draft.destructive = b;
                Ok(draft)
            },
            Err(e) => Err(e),
        }
    } else if text_eq(key, "intent_id") {
        match parse_u32(value) {
            Ok(n) => {
                draft.intent_id = Some(n);
                Ok(draft)
            },
            Err(e) => Err(e),
        }
    } else if text_eq(key, "targets") {
        match parse_targets(value) {
            Ok(targets) => {
                draft.targets = targets;
                Ok(draft)
            },
            Err(e) => Err(e),
        }
    } else {
        Ok(draft)
    }
}

fn read_step_pairs(pairs: &Vec<(String, String)>) -> (r: Result<Draft, String>)
    ensures
        match r {
            Ok(draft) => run(
                new_step(),
                pair_views(pairs@),
                |d: StepDraft, p: Pair| step_pair(d, p),
            ) == Ok::<StepDraft, Seq<char>>(draft@),
            Err(e) => run(
                new_step(),
                pair_views(pairs@),
                |d: StepDraft, p: Pair| step_pair(d, p),
            ) == Err::<StepDraft, Seq<char>>(e@),
        },
{
    let ghost f = |d: StepDraft, p: Pair| step_pair(d, p);
    let ghost all = pair_views(pairs@);
    let mut draft = Draft {
        step_no: 0,
        kind: None,
        destructive: false,
        intent_id: None,
        targets: Vec::new(),
    };
    assert(draft@ =~= new_step());
    let ghost whole = run(new_step(), all, f);
    let mut i: usize = 0;
    assert(all.skip(0) =~= all);
    while i < pairs.len()
        invariant
            i <= pairs@.len(),
            all == pair_views(pairs@),
            f == (|d: StepDraft, p: Pair| step_pair(d, p)),
            whole == run(new_step(), all, f),
            whole == run(draft@, all.skip(i as int), f),
        decreases pairs@.len() - i,
    {
        assert(all.skip(i as int)[0] == (pairs@[i as int].0@, pairs@[i as int].1@));
        assert(all.skip(i as int).drop_first() =~= all.skip(i + 1));
        match read_step_pair(draft, pairs[i].0.as_str(), pairs[i].1.as_str()) {
            Ok(next) => {
                draft = next;
            },
            Err(e) => {
                return Err(e);
            },
        }
        i = i + 1;
    }
    assert(all.skip(i as int).len() == 0);
    Ok(draft)
}

fn read_step_directive(scan: Scan, pairs: &Vec<(String, String)>) -> (r: Result<Scan, String>)
    ensures
        match r {
            Ok(next) => step_directive(scan@, pair_views(pairs@)) == Ok::<ScanModel, Seq<char>>(
                next@,
            ),
            Err(e) => step_directive(scan@, pair_views(pairs@)) == Err::<ScanModel, Seq<char>>(
                e@,
            ),
        },
{
    let draft = match read_step_pairs(pairs) {
        Ok(draft) => draft,
        Err(e) => {
            return Err(e);
        },
    };
    let kind = match draft.kind {
        Some(kind) => kind,
        None => {
            return Err("step missing kind".to_owned());
        },
    };
    let transactional = match &scan.group {
        Some(g) => {
            if g.transactional {
                TransactionConstraint::InTransaction
            } else {
                TransactionConstraint::OutsideTransaction
            }
        },
        None => {
            return Err("step outside group".to_owned());
        },
    };
    let mut scan = scan;
    let step = RawStep {
        step_no: draft.step_no,
        kind,
        destructive: draft.destructive,
        destructive_reason: None,
        intent_id: draft.intent_id,
        targets: draft.targets,
        sql: "".to_owned(),
        transactional,
    };
    let body: Vec<String> = Vec::new();
    assert(texts(body@) =~= Seq::empty());
    scan.step = Some((step, body));
    Ok(scan)
}

fn read_directive(scan: Scan, rest: &Vec<char>) -> (r: Result<Scan, String>)
    ensures
        match r {
            Ok(next) => directive(scan@, rest@) == Ok::<ScanModel, Seq<char>>(next@),
            Err(e) => directive(scan@, rest@) == Err::<ScanModel, Seq<char>>(e@),
        },
{
    let pairs = match parse_kv(rest) {
        Ok(pairs) => pairs,
        Err(e) => {
            return Err(e);
        },
    };
    assert(pair_views(pairs@).len() == pairs@.len());
    if pairs.len() == 0 {
        let text = text_between(rest, 0, rest.len());
        assert(text@ =~= rest@);
        return Err(text);
    }
    assert(pair_views(pairs@)[0] == (pairs@[0].0@, pairs@[0].1@));
    let head = pairs[0].0.as_str();
    let mut scan = scan;
    if text_eq(head, "plan") {
        read_plan_directive(scan, &pairs)
    } else if text_eq(head, "source_rev") {
        scan.source_rev = Some(pairs[0].1.clone());
        Ok(scan)
    } else if text_eq(head, "target") {
        scan.target = Some(pairs[0].1.clone());
        Ok(scan)
    } else if text_eq(head, "intents_required") {
        match parse_u32(pairs[0].1.as_str()) {
            Ok(n) => {
                scan.intents_required = Some(n);
                Ok(scan)
            },
            Err(e) => Err(e),
        }
    } else if text_eq(head, "group") {
        read_group_directive(scan, &pairs)
    } else if text_eq(head, "step") {
        read_step_directive(scan, &pairs)
    } else {
        let mut e = "unknown directive: ".to_owned();
        e.append(head);
        Err(e)
    }
}

fn is_text(chars: &Vec<char>, text: &str) -> (r: bool)
    ensures
        r == (chars@ == text@),
{
    let all = text_between(chars, 0, chars.len());
    assert(all@ =~= chars@);
    text_eq(all.as_str(), text)
}

fn read_line(scan: Scan, line: &Vec<char>) -> (r: Result<Scan, String>)
    ensures
        match r {
            Ok(next) => scan_line(scan@, line@) == Ok::<ScanModel, Seq<char>>(next@),
            Err(e) => scan_line(scan@, line@) == Err::<ScanModel, Seq<char>>(e@),
        },
{
    let mut scan = scan;
    let mut inside = false;
    let mut close = false;
    match &scan.tag {
        Some(tag) => {
            let mut end = chars_of("$");
            let mut tag_copy = list_between(tag, 0, tag.len());
            end.append(&mut tag_copy);
            let mut dollar = chars_of("$");
            end.append(&mut dollar);
            assert(end@ =~= closing(tag@));
            inside = true;
            close = holds_text(line, &end);
        },
        None => {},
    }
    if inside {
        let mut next = push_body(scan, line);
        if close {
            next.tag = None;
        }
        return Ok(next);
    }
    let end: usize = end_without_space(line);
    if end == 0 {
        return Ok(scan);
    }
    let shown = list_between(line, 0, end);
    assert(shown@ =~= trimmed_end(line@));
    match detect_dollar_quote_open(line) {
        Some(tag) => {
            let mut next = push_body(scan, line);
            next.tag = Some(tag);
            return Ok(next);
        },
        None => {},
    }
    let prefix = chars_of("-- @pgevolve ");
    assert(shown@.skip(0) =~= shown@);
    if begins_at(&shown, 0, &prefix) {
        let rest = list_between(&shown, prefix.len(), shown.len());
        assert(rest@ =~= shown@.skip("-- @pgevolve "@.len() as int));
        read_directive(flush_step(scan), &rest)
    } else if is_text(&shown, "BEGIN;") {
        Ok(scan)
    } else if is_text(&shown, "COMMIT;") {
        Ok(close_group(flush_step(scan)))
    } else {
        Ok(push_body(scan, line))
    }
}

fn complete(scan: Scan) -> (r: Result<PartialPlan, String>)
    ensures
        match r {
            Ok(plan) => finished(scan@) == Ok::<PartialModel, Seq<char>>(plan@),
            Err(e) => finished(scan@) == Err::<PartialModel, Seq<char>>(e@),
        },
{
    let id_short = match scan.id_short {
        Some(v) => v,
        None => {
            return Err("missing plan id".to_owned());
        },
    };
    let pgevolve_version = match scan.version {
        Some(v) => v,
        None => {
            return Err("missing version".to_owned());
        },
    };
    let planner_ruleset_version = match scan.ruleset {
        Some(v) => v,
        None => {
            return Err("missing ruleset".to_owned());
        },
    };
    let target_identity = match scan.target {
        Some(v) => v,
        None => {
            return Err("missing target".to_owned());
        },
    };
    let intents_required = match scan.intents_required {
        Some(v) => v,
        None => {
            return Err("missing intents_required".to_owned());
        },
    };
    let created_at = match scan.created {
        Some(v) => v,
        None => {
            return Err("missing created".to_owned());
        },
    };
    Ok(
        PartialPlan {
            id_short,
            pgevolve_version,
            planner_ruleset_version,
            source_rev: scan.source_rev,
            target_identity,
            intents_required,
            created_at,
            groups: scan.groups,
        },
    )
}

/// Reads `plan.sql`.
///
/// # Errors
///
/// `PlanIoError::MalformedDirective` where a directive is not understood or
/// missing.
pub fn read_plan_sql(s: &str) -> (r: Result<PartialPlan, PlanIoError>)
    ensures
        match r {
            Ok(plan) => plan_in(s@) == Ok::<PartialModel, Seq<char>>(plan@),
            Err(e) => e matches PlanIoError::MalformedDirective(text) && plan_in(s@) == Err::<
                PartialModel,
                Seq<char>,
            >(text@),
        },
{
    let lines = split_lines(s);
    let ghost f = |m: ScanModel, line: Seq<char>| scan_line(m, line);
    let ghost all = lines_of(s@);
    let ghost whole = run(nothing_read(), all, f);
    let mut scan = Scan {
        id_short: None,
        version: None,
        ruleset: None,
        created: None,
        source_rev: None,
        target: None,
        intents_required: None,
        groups: Vec::new(),
        group: None,
        step: None,
        tag: None,
    };
    assert(scan@ =~= nothing_read());
    let mut i: usize = 0;
    assert(all.skip(0) =~= all);
    while i < lines.len()
        invariant
            i <= lines@.len(),
            all == char_lists(lines@),
            all == lines_of(s@),
            f == (|m: ScanModel, line: Seq<char>| scan_line(m, line)),
            whole == run(nothing_read(), all, f),
            whole == run(scan@, all.skip(i as int), f),
        decreases lines@.len() - i,
    {
        assert(all.skip(i as int)[0] == lines@[i as int]@);
        assert(all.skip(i as int).drop_first() =~= all.skip(i + 1));
        match read_line(scan, &lines[i]) {
            Ok(next) => {
                scan = next;
            },
            Err(e) => {
                return Err(PlanIoError::MalformedDirective(e));
            },
        }
        i = i + 1;
    }
    assert(all.skip(i as int).len() == 0);
    match complete(close_group(flush_step(scan))) {
        Ok(plan) => Ok(plan),
        Err(e) => Err(PlanIoError::MalformedDirective(e)),
    }
}

/// What `intent.toml` says.
#[derive(Debug, Clone, PartialEq, Eq)]
pub struct ParsedIntent {
    /// The short id.
    pub plan_id: String,
    /// One row for each destructive step.
    pub intents: Vec<DestructiveIntent>,
    /// Acknowledged findings.
    pub lint_waivers: Vec<LintWaiver>,
    /// Modified steps.
    pub step_overrides: Vec<StepOverride>,
}

/// What `manifest.toml` says.
#[derive(Debug, Clone, PartialEq, Eq)]
pub struct ParsedManifest {
    /// The short id.
    pub plan_id: String,
    /// The full id.
    pub plan_hash: String,
    /// The version.
    pub pgevolve_version: String,
    /// The ruleset version.
    pub planner_ruleset_version: u32,
    /// The source revision.
    pub source_rev: Option<String>,
    /// The target's identity.
    pub target_identity: String,
    /// When the plan was made.
    pub created_at: Timestamp,
    /// The live catalog that the plan starts from.
    pub target_snapshot: Catalog,
    /// Findings that were there when the plan was made.
    pub lint_at_plan_findings: Vec<RecordedFinding>,
}

/// What a manifest says of when its plan was made, or the error's text.
pub open spec fn manifest_time(s: Seq<char>) -> Result<(int, int), Seq<char>> {
    match rfc3339_reading(s) {
        Ok(t) => Ok(t),
        Err(e) => Err("manifest created_at="@ + s + ": "@ + e),
    }
}

/// Reads a manifest's `created_at`.
///
/// # Errors
///
/// `PlanIoError::MalformedDirective` where it is not an RFC 3339 time.
pub fn read_manifest_time(s: &str) -> (r: Result<Timestamp, PlanIoError>)
    ensures
        match r {
            Ok(t) => manifest_time(s@) == read_as(t),
            Err(e) => e matches PlanIoError::MalformedDirective(text) && manifest_time(s@)
                == failed_with(text@),
        },
{
    match parse_rfc3339(s) {
        Ok(t) => Ok(t),
        Err(fault) => {
            let mut e = "manifest created_at=".to_owned();
            e.append(s);
            e.append(": ");
            e.append(fault.as_str());
            Err(PlanIoError::MalformedDirective(e))
        },
    }
}

/// The reason in the first row of that id.
pub open spec fn reason_of(intents: Seq<IntentModel>, id: u32) -> Option<Seq<char>>
    decreases intents.len(),
{
    if intents.len() == 0 {
        None
    } else if intents[0].id == id {
        Some(intents[0].reason)
    } else {
        reason_of(intents.drop_first(), id)
    }
}

/// A step with the reason of its intent, where there is one.
pub open spec fn with_reason(step: StepModel, intents: Seq<IntentModel>) -> StepModel {
    match step.intent_id {
        Some(id) => match reason_of(intents, id) {
            Some(reason) => StepModel { destructive_reason: Some(reason), ..step },
            None => step,
        },
        None => step,
    }
}

/// A group with the reasons of its steps' intents.
pub open spec fn with_reasons(g: GroupModel, intents: Seq<IntentModel>) -> GroupModel {
    GroupModel { steps: g.steps.map_values(|s: StepModel| with_reason(s, intents)), ..g }
}

fn find_reason(intents: &Vec<DestructiveIntent>, id: u32) -> (r: Option<String>)
    ensures
        opt_text(r) == reason_of(models(intents@), id),
{
    let ghost all = models(intents@);
    let mut i: usize = 0;
    assert(all.skip(0) =~= all);
    while i < intents.len()
        invariant
            i <= intents@.len(),
            all == models(intents@),
            reason_of(all, id) == reason_of(all.skip(i as int), id),
        decreases intents@.len() - i,
    {
        assert(all.skip(i as int)[0] == intents@[i as int]@);
        assert(all.skip(i as int).drop_first() =~= all.skip(i + 1));
        if intents[i].id == id {
            return Some(intents[i].reason.clone());
        }
        i = i + 1;
    }
    assert(all.skip(i as int).len() == 0);
    None
}

fn graft_steps(steps: &mut Vec<RawStep>, intents: &Vec<DestructiveIntent>)
    ensures
        models(final(steps)@) == models(old(steps)@).map_values(
            |s: StepModel| with_reason(s, models(intents@)),
        ),
{
    let ghost before = models(steps@);
    let ghost rows = models(intents@);
    let mut i: usize = 0;
    while i < steps.len()
        invariant
            i <= steps@.len(),
            before.len() == steps@.len(),
            rows == models(intents@),
            forall|k: int| 0 <= k < i ==> (#[trigger] steps@[k])@ == with_reason(before[k], rows),
            forall|k: int| i <= k < steps@.len() ==> (#[trigger] steps@[k])@ == before[k],
        decreases steps@.len() - i,
    {
        assert(steps@[i as int]@ == before[i as int]);
        match steps[i].intent_id {
            Some(id) => {
                match find_reason(intents, id) {
                    Some(reason) => {
                        steps[i].destructive_reason = Some(reason);
                    },
                    None => {},
                }
            },
            None => {},
        }
        assert(steps@[i as int]@ == with_reason(before[i as int], rows));
        i = i + 1;
    }
    assert(models(steps@) =~= before.map_values(|s: StepModel| with_reason(s, rows)));
}

fn graft(groups: Vec<TransactionGroup>, intents: &Vec<DestructiveIntent>) -> (out: Vec<
    TransactionGroup,
>)
    ensures
        models(out@) == models(groups@).map_values(
            |g: GroupModel| with_reasons(g, models(intents@)),
        ),
{
    let ghost before = models(groups@);
    let ghost rows = models(intents@);
    let mut groups = groups;
    let mut i: usize = 0;
    while i < groups.len()
        invariant
            i <= groups@.len(),
            before.len() == groups@.len(),
            rows == models(intents@),
            forall|k: int| 0 <= k < i ==> (#[trigger] groups@[k])@ == with_reasons(before[k], rows),
            forall|k: int| i <= k < groups@.len() ==> (#[trigger] groups@[k])@ == before[k],
        decreases groups@.len() - i,
    {
        assert(groups@[i as int]@ == before[i as int]);
        graft_steps(&mut groups[i].steps, intents);
        assert(groups@[i as int]@ =~= with_reasons(before[i as int], rows));
        i = i + 1;
    }
    assert(models(groups@) =~= before.map_values(|g: GroupModel| with_reasons(g, rows)));
    groups
}

/// Whether the three files are of the same plan.
pub open spec fn ids_agree(sql: PartialModel, intent: ParsedIntent, manifest: ParsedManifest) -> bool {
    sql.id_short == intent.plan_id@ && sql.id_short == manifest.plan_id@
}

/// Puts the three files of a plan together.
///
/// The short ids have to agree. The reasons of destructive steps come from the
/// intents: `plan.sql` does not carry them. Everything else comes from the
/// manifest.
///
/// # Errors
///
/// `PlanIoError::PlanIdMismatch` where the short ids differ, and
/// `PlanIoError::InvalidPlanHash` where the manifest's full id is not one.
pub fn assemble_plan(
    partial: PartialPlan,
    intent: ParsedIntent,
    manifest: ParsedManifest,
) -> (r: Result<Plan, PlanIoError>)
    ensures
        match r {
            Ok(plan) => {
                &&& ids_agree(partial@, intent, manifest)
                &&& read_full_id(manifest.plan_hash@) == Some(plan.id.0@)
                &&& models(plan.groups@) == models(partial.groups@).map_values(
                    |g: GroupModel| with_reasons(g, models(intent.intents@)),
                )
                &&& plan.intents == intent.intents
                &&& plan.lint_waivers == intent.lint_waivers
                &&& plan.step_overrides == intent.step_overrides
                &&& plan.metadata.pgevolve_version == manifest.pgevolve_version
                &&& plan.metadata.planner_ruleset_version == manifest.planner_ruleset_version
                &&& plan.metadata.source_rev == manifest.source_rev
                &&& plan.metadata.target_identity == manifest.target_identity
                &&& plan.metadata.target_snapshot == manifest.target_snapshot
                &&& plan.metadata.created_at == manifest.created_at
                &&& plan.metadata.lint_at_plan_findings == manifest.lint_at_plan_findings
                &&& plan.advisory_findings@.len() == 0
            },
            Err(PlanIoError::PlanIdMismatch { sql, intent: i, manifest: m }) => {
                &&& !ids_agree(partial@, intent, manifest)
                &&& sql == partial.id_short
                &&& i == intent.plan_id
                &&& m == manifest.plan_id
            },
            Err(PlanIoError::InvalidPlanHash(e)) => {
                &&& ids_agree(partial@, intent, manifest)
                &&& read_full_id(manifest.plan_hash@) is None
                &&& e.0@ == manifest.plan_hash@
            },
            Err(PlanIoError::MalformedDirective(text)) => false,
        },
{
    let same_intent = text_eq(partial.id_short.as_str(), intent.plan_id.as_str());
    let same_manifest = text_eq(partial.id_short.as_str(), manifest.plan_id.as_str());
    if !same_intent || !same_manifest {
        return Err(
            PlanIoError::PlanIdMismatch {
                sql: partial.id_short,
                intent: intent.plan_id,
                manifest: manifest.plan_id,
            },
        );
    }
    let id = match PlanId::from_full_hex(manifest.plan_hash.as_str()) {
        Ok(id) => id,
        Err(e) => {
            return Err(PlanIoError::InvalidPlanHash(e));
        },
    };
    let groups = graft(partial.groups, &intent.intents);
    let metadata = PlanMetadata {
        pgevolve_version: manifest.pgevolve_version,
        planner_ruleset_version: manifest.planner_ruleset_version,
        source_rev: manifest.source_rev,
        target_identity: manifest.target_identity,
        target_snapshot: manifest.target_snapshot,
        created_at: manifest.created_at,
        lint_at_plan_findings: manifest.lint_at_plan_findings,
    };
    Ok(
        Plan {
            id,
            groups,
            intents: intent.intents,
            lint_waivers: intent.lint_waivers,
            step_overrides: intent.step_overrides,
            metadata,
            advisory_findings: Vec::new(),
        },
    )
}

} // verus!
