//! The values in `-- @pgevolve` directives.

use crate::identifier::{read_unquoted, Identifier, QnameModel, QualifiedName};
use crate::lines::{
    chars_of, char_lists, cut_once, find_char, parts_of, split_at_char, split_words, text_between,
    words_of,
};
use crate::model::models;
use crate::plan::kind_names::{kind_text, law_kind_names_are_distinct, parse_kind_name};
use crate::plan::raw_step::StepKind;
use crate::text::text_eq;
use vstd::prelude::*;
use vstd::string::*;

verus! {

/// A key and its value.
pub type Pair = (Seq<char>, Seq<char>);

/// Goes through a list from a state, until a step fails.
pub open spec fn run<S, T>(
    state: S,
    list: Seq<T>,
    step: spec_fn(S, T) -> Result<S, Seq<char>>,
) -> Result<S, Seq<char>>
    decreases list.len(),
{
    if list.len() == 0 {
        Ok(state)
    } else {
        match step(state, list[0]) {
            Ok(next) => run(next, list.drop_first(), step),
            Err(e) => Err(e),
        }
    }
}

/// A word as a pair, where it has a `=`.
pub open spec fn pair_of(word: Seq<char>) -> Option<Pair> {
    cut_once(word, '=')
}

/// The pairs of words that all need a `=`.
pub open spec fn later_pairs(words: Seq<Seq<char>>) -> Result<Seq<Pair>, Seq<char>>
    decreases words.len(),
{
    if words.len() == 0 {
        Ok(Seq::empty())
    } else {
        match later_pairs(words.drop_last()) {
            Ok(pairs) => match pair_of(words.last()) {
                Some(pair) => Ok(pairs.push(pair)),
                None => Err("bare token: "@ + words.last()),
            },
            Err(e) => Err(e),
        }
    }
}

/// The pairs of a directive. Its first word may be bare: it is then a key
/// without a value.
pub open spec fn pairs_of(s: Seq<char>) -> Result<Seq<Pair>, Seq<char>> {
    let words = words_of(s);
    if words.len() == 0 {
        Ok(Seq::empty())
    } else {
        let first = match pair_of(words[0]) {
            Some(pair) => pair,
            None => (words[0], ""@),
        };
        match later_pairs(words.drop_first()) {
            Ok(pairs) => Ok(seq![first] + pairs),
            Err(e) => Err(e),
        }
    }
}

/// The views of a list of pairs.
pub open spec fn pair_views(list: Seq<(String, String)>) -> Seq<Pair> {
    list.map_values(|p: (String, String)| (p.0@, p.1@))
}

fn read_pair(word: &Vec<char>) -> (r: Option<(String, String)>)
    ensures
        match r {
            Some(pair) => pair_of(word@) == Some((pair.0@, pair.1@)),
            None => pair_of(word@) is None,
        },
{
    let n: usize = find_char(word, '=');
    if n < word.len() {
        let key = text_between(word, 0, n);
        let value = text_between(word, n + 1, word.len());
        assert(key@ =~= word@.take(n as int));
        assert(value@ =~= word@.skip(n + 1));
        Some((key, value))
    } else {
        None
    }
}

proof fn lemma_later_pairs_fail(words: Seq<Seq<char>>, i: int)
    requires
        0 <= i <= words.len(),
        later_pairs(words.take(i)) is Err,
    ensures
        later_pairs(words) == later_pairs(words.take(i)),
    decreases words.len() - i,
{
    if i < words.len() {
        assert(words.take(i + 1).drop_last() =~= words.take(i));
        lemma_later_pairs_fail(words, i + 1);
    } else {
        assert(words.take(i) =~= words);
    }
}

/// Cuts a directive into pairs.
pub fn parse_kv(chars: &Vec<char>) -> (r: Result<Vec<(String, String)>, String>)
    ensures
        match r {
            Ok(pairs) => pairs_of(chars@) == Ok::<Seq<Pair>, Seq<char>>(pair_views(pairs@)),
            Err(e) => pairs_of(chars@) == Err::<Seq<Pair>, Seq<char>>(e@),
        },
{
    let words = split_words(chars);
    let ghost all = words_of(chars@);
    assert(all.len() == words@.len());
    let mut out: Vec<(String, String)> = Vec::new();
    if words.len() == 0 {
        assert(pair_views(out@) =~= Seq::empty());
        return Ok(out);
    }
    assert(all[0] == words@[0]@);
    let first = match read_pair(&words[0]) {
        Some(pair) => pair,
        None => (text_between(&words[0], 0, words[0].len()), "".to_owned()),
    };
    let ghost head = (first.0@, first.1@);
    proof {
        assert(words@[0]@.subrange(0, words@[0]@.len() as int) =~= words@[0]@);
    }
    out.push(first);
    let ghost rest = all.drop_first();
    assert(pair_views(out@) =~= seq![head]);
    let mut i: usize = 1;
    assert(rest.take(0) =~= Seq::empty());
    assert(seq![head] + Seq::<Pair>::empty() =~= seq![head]);
    while i < words.len()
        invariant
            1 <= i <= words@.len(),
            all == char_lists(words@),
            rest == all.drop_first(),
            later_pairs(rest.take(i - 1)) is Ok,
            pair_views(out@) == seq![head] + later_pairs(rest.take(i - 1))->Ok_0,
            pairs_of(chars@) == (match later_pairs(rest) {
                Ok(pairs) => Ok::<Seq<Pair>, Seq<char>>(seq![head] + pairs),
                Err(e) => Err(e),
            }),
        decreases words@.len() - i,
    {
        let ghost before = pair_views(out@);
        proof {
            assert(rest.take(i as int).drop_last() =~= rest.take(i - 1));
            assert(rest.take(i as int).last() == words@[i as int]@);
        }
        match read_pair(&words[i]) {
            Some(pair) => {
                let ghost view = (pair.0@, pair.1@);
                out.push(pair);
                assert(pair_views(out@) =~= before.push(view));
                assert(pair_views(out@) =~= seq![head] + later_pairs(rest.take(i as int))->Ok_0);
            },
            None => {
                let mut e = "bare token: ".to_owned();
                let word = text_between(&words[i], 0, words[i].len());
                e.append(word.as_str());
                proof {
                    assert(words@[i as int]@.subrange(0, words@[i as int]@.len() as int)
                        =~= words@[i as int]@);
                    lemma_later_pairs_fail(rest, i as int);
                }
                return Err(e);
            },
        }
        i = i + 1;
    }
    assert(rest.take(i - 1) =~= rest);
    Ok(out)
}

/// The value of a decimal digit.
pub open spec fn digit_value(c: char) -> Option<nat> {
    if '0' <= c && c <= '9' {
        Some((c as u32 - '0' as u32) as nat)
    } else {
        None
    }
}

/// The number that decimal digits write.
pub open spec fn digits_value(s: Seq<char>) -> Option<nat>
    decreases s.len(),
{
    if s.len() == 0 {
        Some(0)
    } else {
        match digits_value(s.drop_last()) {
            Some(n) => match digit_value(s.last()) {
                Some(d) => Some(n * 10 + d),
                None => None,
            },
            None => None,
        }
    }
}

/// The `u32` that a text writes: decimal digits, at least one, with a `+`
/// before them or not.
pub open spec fn read_u32(s: Seq<char>) -> Option<u32> {
    let digits = if s.len() > 0 && s[0] == '+' {
        s.drop_first()
    } else {
        s
    };
    if digits.len() == 0 {
        None
    } else {
        match digits_value(digits) {
            Some(n) => if n <= u32::MAX {
                Some(n as u32)
            } else {
                None
            },
            None => None,
        }
    }
}

proof fn lemma_digits_grow(s: Seq<char>, i: int)
    requires
        0 <= i <= s.len(),
    ensures
        digits_value(s.take(i)) is None ==> digits_value(s) is None,
        digits_value(s.take(i)) is Some && digits_value(s) is Some ==> digits_value(s.take(i))->0
            <= digits_value(s)->0,
    decreases s.len() - i,
{
    if i < s.len() {
        assert(s.take(i + 1).drop_last() =~= s.take(i));
        lemma_digits_grow(s, i + 1);
    } else {
        assert(s.take(i) =~= s);
    }
}

fn number(chars: &Vec<char>) -> (r: Option<u32>)
    ensures
        r == read_u32(chars@),
{
    let mut from: usize = 0;
    if chars.len() > 0 && chars[0] == '+' {
        from = 1;
    }
    let ghost digits = chars@.skip(from as int);
    assert(from == 1 ==> digits =~= chars@.drop_first());
    assert(from == 0 ==> digits =~= chars@);
    if chars.len() == from {
        return None;
    }
    let mut n: u64 = 0;
    let mut i: usize = from;
    assert(digits.take(0) =~= Seq::empty());
    while i < chars.len()
        invariant
            from <= i <= chars@.len(),
            digits == chars@.skip(from as int),
            digits.len() > 0,
            read_u32(chars@) == (match digits_value(digits) {
                Some(v) => if v <= u32::MAX {
                    Some(v as u32)
                } else {
                    None
                },
                None => None,
            }),
            digits_value(digits.take(i - from)) == Some(n as nat),
            n <= u32::MAX,
        decreases chars@.len() - i,
    {
        let c = chars[i];
        proof {
            assert(digits.take(i - from + 1).drop_last() =~= digits.take(i - from));
            assert(digits.take(i - from + 1).last() == c);
            lemma_digits_grow(digits, i - from + 1);
        }
        if !('0' <= c && c <= '9') {
            return None;
        }
        let d: u64 = (c as u32 - '0' as u32) as u64;
        n = n * 10 + d;
        if n > 0xffff_ffff {
            return None;
        }
        i = i + 1;
    }
    assert(digits.take(i - from) =~= digits);
    Some(n as u32)
}

/// What a text says of a number, or the error's text.
pub open spec fn number_of(s: Seq<char>) -> Result<u32, Seq<char>> {
    match read_u32(s) {
        Some(n) => Ok(n),
        None => Err("not a u32: "@ + s),
    }
}

/// Reads a number.
pub fn parse_u32(s: &str) -> (r: Result<u32, String>)
    ensures
        match r {
            Ok(n) => number_of(s@) == Ok::<u32, Seq<char>>(n),
            Err(e) => number_of(s@) == Err::<u32, Seq<char>>(e@),
        },
{
    let chars = chars_of(s);
    match number(&chars) {
        Some(n) => Ok(n),
        None => {
            let mut e = "not a u32: ".to_owned();
            e.append(s);
            Err(e)
        },
    }
}

/// What a text says of a flag, or the error's text.
pub open spec fn flag_of(s: Seq<char>) -> Result<bool, Seq<char>> {
    if s == "true"@ {
        Ok(true)
    } else if s == "false"@ {
        Ok(false)
    } else {
        Err("not a bool: "@ + s)
    }
}

/// Reads a flag.
pub fn parse_bool(s: &str) -> (r: Result<bool, String>)
    ensures
        match r {
            Ok(b) => flag_of(s@) == Ok::<bool, Seq<char>>(b),
            Err(e) => flag_of(s@) == Err::<bool, Seq<char>>(e@),
        },
{
    if text_eq(s, "true") {
        Ok(true)
    } else if text_eq(s, "false") {
        Ok(false)
    } else {
        let mut e = "not a bool: ".to_owned();
        e.append(s);
        Err(e)
    }
}

/// The kind of that name.
pub open spec fn kind_named(s: Seq<char>) -> Option<StepKind> {
    if exists|k: StepKind| kind_text(k) == s {
        Some(choose|k: StepKind| kind_text(k) == s)
    } else {
        None
    }
}

/// What a text says of a kind, or the error's text.
pub open spec fn kind_of(s: Seq<char>) -> Result<StepKind, Seq<char>> {
    match kind_named(s) {
        Some(k) => Ok(k),
        None => Err("kind="@ + s),
    }
}

/// Reads a kind.
pub fn parse_kind(s: &str) -> (r: Result<StepKind, String>)
    ensures
        match r {
            Ok(k) => kind_of(s@) == Ok::<StepKind, Seq<char>>(k),
            Err(e) => kind_of(s@) == Err::<StepKind, Seq<char>>(e@),
        },
{
    match parse_kind_name(s) {
        Some(k) => {
            proof {
                assert(kind_text(k) == s@);
                law_kind_names_are_distinct(k, choose|j: StepKind| kind_text(j) == s@);
            }
            Ok(k)
        },
        None => {
            let mut e = "kind=".to_owned();
            e.append(s);
            Err(e)
        },
    }
}

/// What a text says of a qualified name, or the error's text.
pub open spec fn qname_of(s: Seq<char>) -> Result<QnameModel, Seq<char>> {
    match cut_once(s, '.') {
        None => Err("expected schema.name: "@ + s),
        Some((schema, name)) => match read_unquoted(schema) {
            Err(e) => Err("schema "@ + schema + ": "@ + e.message()),
            Ok(folded_schema) => match read_unquoted(name) {
                Err(e) => Err("name "@ + name + ": "@ + e.message()),
                Ok(folded_name) => Ok(QnameModel { schema: folded_schema, name: folded_name }),
            },
        },
    }
}

/// Reads a qualified name.
pub fn parse_qname(chars: &Vec<char>) -> (r: Result<QualifiedName, String>)
    ensures
        match r {
            Ok(q) => qname_of(chars@) == Ok::<QnameModel, Seq<char>>(q@),
            Err(e) => qname_of(chars@) == Err::<QnameModel, Seq<char>>(e@),
        },
{
    let n: usize = find_char(chars, '.');
    if n == chars.len() {
        let mut e = "expected schema.name: ".to_owned();
        let whole = text_between(chars, 0, chars.len());
        assert(whole@ =~= chars@);
        e.append(whole.as_str());
        return Err(e);
    }
    let schema = text_between(chars, 0, n);
    let name = text_between(chars, n + 1, chars.len());
    assert(schema@ =~= chars@.take(n as int));
    assert(name@ =~= chars@.skip(n + 1));
    let schema_id = match Identifier::from_unquoted(schema.as_str()) {
        Ok(id) => id,
        Err(fault) => {
            let mut e = "schema ".to_owned();
            e.append(schema.as_str());
            e.append(": ");
            let text = fault.to_string();
            e.append(text.as_str());
            return Err(e);
        },
    };
    match Identifier::from_unquoted(name.as_str()) {
        Ok(id) => Ok(QualifiedName::new(schema_id, id)),
        Err(fault) => {
            let mut e = "name ".to_owned();
            e.append(name.as_str());
            e.append(": ");
            let text = fault.to_string();
            e.append(text.as_str());
            Err(e)
        },
    }
}

/// What texts say of qualified names, or the first error's text.
pub open spec fn qnames_of(parts: Seq<Seq<char>>) -> Result<Seq<QnameModel>, Seq<char>>
    decreases parts.len(),
{
    if parts.len() == 0 {
        Ok(Seq::empty())
    } else {
        match qnames_of(parts.drop_last()) {
            Ok(names) => match qname_of(parts.last()) {
                Ok(name) => Ok(names.push(name)),
                Err(e) => Err(e),
            },
            Err(e) => Err(e),
        }
    }
}

/// What a text says of targets: names separated by commas; none where it is
/// empty.
pub open spec fn targets_of(s: Seq<char>) -> Result<Seq<QnameModel>, Seq<char>> {
    if s.len() == 0 {
        Ok(Seq::empty())
    } else {
        qnames_of(parts_of(s, ','))
    }
}

proof fn lemma_qnames_fail(parts: Seq<Seq<char>>, i: int)
    requires
        0 <= i <= parts.len(),
        qnames_of(parts.take(i)) is Err,
    ensures
        qnames_of(parts) == qnames_of(parts.take(i)),
    decreases parts.len() - i,
{
    if i < parts.len() {
        assert(parts.take(i + 1).drop_last() =~= parts.take(i));
        lemma_qnames_fail(parts, i + 1);
    } else {
        assert(parts.take(i) =~= parts);
    }
}

/// Reads targets.
pub fn parse_targets(s: &str) -> (r: Result<Vec<QualifiedName>, String>)
    ensures
        match r {
            Ok(list) => targets_of(s@) == Ok::<Seq<QnameModel>, Seq<char>>(models(list@)),
            Err(e) => targets_of(s@) == Err::<Seq<QnameModel>, Seq<char>>(e@),
        },
{
    let chars = chars_of(s);
    let mut out: Vec<QualifiedName> = Vec::new();
    assert(models(out@) =~= Seq::empty());
    if chars.len() == 0 {
        return Ok(out);
    }
    let parts = split_at_char(&chars, ',');
    let ghost all = parts_of(s@, ',');
    let mut i: usize = 0;
    assert(all.take(0) =~= Seq::empty());
    while i < parts.len()
        invariant
            i <= parts@.len(),
            all == char_lists(parts@),
            s@.len() > 0,
            all == parts_of(s@, ','),
            qnames_of(all.take(i as int)) == Ok::<Seq<QnameModel>, Seq<char>>(models(out@)),
        decreases parts@.len() - i,
    {
        let ghost before = models(out@);
        proof {
            assert(all.take(i + 1).drop_last() =~= all.take(i as int));
            assert(all.take(i + 1).last() == parts@[i as int]@);
        }
        match parse_qname(&parts[i]) {
            Ok(q) => {
                out.push(q);
                assert(models(out@) =~= before.push(q@));
            },
            Err(e) => {
                proof {
                    lemma_qnames_fail(all, i + 1);
                }
                return Err(e);
            },
        }
        i = i + 1;
    }
    assert(all.take(i as int) =~= all);
    Ok(out)
}

} // verus!
