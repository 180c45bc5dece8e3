//! How lines, words and values read back what was written.

use crate::identifier::{continues_identifier, folded, is_unquoted, QnameModel};
use crate::lines::{
    before_first, is_space, lemma_before_first, lemma_before_first_is, lemma_line_len,
    lemma_line_len_is, lemma_run_len, lemma_run_len_is, line_len, lines_of, parts_of, run_len,
    words_of,
};
use crate::plan::directives::{
    digit_value, digits_value, flag_of, kind_of, later_pairs, number_of, pair_of, pairs_of,
    qname_of, qnames_of, run, targets_of, Pair,
};
use crate::plan::kind_names::{kind_text, law_kind_names_are_distinct};
use crate::plan::raw_step::StepKind;
use crate::plan::rewrite::publications::flag_text;
use crate::plan::serialize::{target_list, word};
use crate::text::{decimal_nat, digit_char, joined};
use crate::timestamp::spaceless;
use vstd::prelude::*;
use vstd::string::*;

verus! {

/// Going through two lists, one after the other.
pub proof fn lemma_run_append<S, T>(
    state: S,
    a: Seq<T>,
    b: Seq<T>,
    step: spec_fn(S, T) -> Result<S, Seq<char>>,
)
    ensures
        run(state, a + b, step) == (match run(state, a, step) {
            Ok(next) => run(next, b, step),
            Err(e) => Err(e),
        }),
    decreases a.len(),
{
    if a.len() == 0 {
        assert(a + b =~= b);
    } else {
        assert((a + b)[0] == a[0]);
        assert((a + b).drop_first() =~= a.drop_first() + b);
        match step(state, a[0]) {
            Ok(next) => lemma_run_append(next, a.drop_first(), b, step),
            Err(e) => {},
        }
    }
}

/// Whether a text is one line: it holds no `\n`, and no `\r` stands at its end.
pub open spec fn one_line(s: Seq<char>) -> bool {
    &&& forall|i: int| 0 <= i < s.len() ==> #[trigger] s[i] != '\n'
    &&& s.len() > 0 ==> s.last() != '\r'
}

/// A line, a newline and the rest read as the line and the lines of the rest.
pub proof fn lemma_first_line(line: Seq<char>, rest: Seq<char>)
    requires
        one_line(line),
    ensures
        lines_of(line + "\n"@ + rest) == seq![line] + lines_of(rest),
{
    reveal_strlit("\n");
    let s = line + "\n"@ + rest;
    let n = line.len() as int;
    assert(s[n] == '\n');
    assert forall|i: int| 0 <= i < n implies #[trigger] s[i] != '\n' by {
        assert(s[i] == line[i]);
    }
    lemma_line_len_is(s, n);
    assert(s.take(n) =~= line);
    assert(s.skip(n + 1) =~= rest);
}

/// Whether a text is made of whole lines.
pub open spec fn whole_lines(s: Seq<char>) -> bool {
    s.len() > 0 ==> s.last() == '\n'
}

/// The lines of whole lines and a rest.
pub proof fn lemma_lines_append(a: Seq<char>, b: Seq<char>)
    requires
        whole_lines(a),
    ensures
        lines_of(a + b) == lines_of(a) + lines_of(b),
    decreases a.len(),
{
    if a.len() == 0 {
        assert(a + b =~= b);
        assert(lines_of(a) + lines_of(b) =~= lines_of(b));
    } else {
        lemma_line_len(a);
        let n = line_len(a) as int;
        if n == a.len() {
            assert(a[a.len() - 1] != '\n');
        }
        let s = a + b;
        assert(s[n] == '\n');
        assert forall|i: int| 0 <= i < n implies #[trigger] s[i] != '\n' by {
            assert(s[i] == a[i]);
        }
        lemma_line_len_is(s, n);
        let rest = a.skip(n + 1);
        assert(whole_lines(rest)) by {
            if rest.len() > 0 {
                assert(rest.last() == a.last());
            }
        }
        lemma_lines_append(rest, b);
        assert(s.take(n) =~= a.take(n));
        assert(s.skip(n + 1) =~= rest + b);
        assert(lines_of(s) =~= lines_of(a) + lines_of(b));
    }
}

/// A list with one more part in front.
pub proof fn lemma_joined_front(part: Seq<char>, rest: Seq<Seq<char>>, sep: Seq<char>)
    ensures
        joined(seq![part] + rest, sep) == (if rest.len() == 0 {
            part
        } else {
            part + sep + joined(rest, sep)
        }),
    decreases rest.len(),
{
    let all = seq![part] + rest;
    if rest.len() == 0 {
        assert(all =~= seq![part]);
        assert(all.drop_last() =~= Seq::empty());
    } else if rest.len() == 1 {
        assert(all.drop_last() =~= seq![part]);
        assert(joined(seq![part], sep) == part);
        assert(joined(rest, sep) == rest[0]);
        assert(all.last() == rest.last());
        assert(joined(all, sep) =~= part + sep + joined(rest, sep));
    } else {
        lemma_joined_front(part, rest.drop_last(), sep);
        assert(all.drop_last() =~= seq![part] + rest.drop_last());
        assert(all.last() == rest.last());
        assert(joined(all, sep) =~= part + sep + joined(rest, sep));
    }
}

/// A text that is a word: not empty, and without white space.
pub open spec fn is_word(s: Seq<char>) -> bool {
    s.len() > 0 && spaceless(s)
}

/// Every text of a list is a word.
pub open spec fn all_words(list: Seq<Seq<char>>) -> bool {
    forall|i: int| 0 <= i < list.len() ==> is_word(#[trigger] list[i])
}

/// Words behind one space each read back as the words.
pub proof fn lemma_words_read_back(words: Seq<Seq<char>>)
    requires
        all_words(words),
    ensures
        words_of(joined(words, " "@)) == words,
    decreases words.len(),
{
    reveal_strlit(" ");
    if words.len() == 0 {
        let s = joined(words, " "@);
        assert(s.len() == 0);
        lemma_run_len(s, true);
        assert(words_of(s) =~= words);
    } else {
        let w = words[0];
        let rest = words.drop_first();
        assert(words =~= seq![w] + rest);
        lemma_joined_front(w, rest, " "@);
        assert forall|i: int| 0 <= i < rest.len() implies is_word(#[trigger] rest[i]) by {
            assert(rest[i] == words[i + 1]);
        }
        lemma_words_read_back(rest);
        let s = joined(words, " "@);
        assert(is_word(w));
        let n = w.len() as int;
        if rest.len() == 0 {
            assert(s =~= w);
            lemma_run_len_is(s, true, 0);
            assert(s.skip(0) =~= s);
            lemma_run_len_is(s, false, n);
            assert(s.take(n) =~= w);
            assert(s.skip(n).len() == 0);
            lemma_run_len(s.skip(n), true);
            assert(words_of(s.skip(n)) =~= Seq::empty());
            assert(words_of(s) =~= seq![w] + words_of(s.skip(n)));
            assert(words_of(s) =~= words);
        } else {
            let t = joined(rest, " "@);
            assert(s =~= w + " "@ + t);
            assert(s[0] == w[0]);
            lemma_run_len_is(s, true, 0);
            assert(s.skip(0) =~= s);
            assert forall|i: int| 0 <= i < n implies is_space(#[trigger] s[i]) == false by {
                assert(s[i] == w[i]);
            }
            assert(s[n] == ' ');
            lemma_run_len_is(s, false, n);
            assert(s.take(n) =~= w);
            assert(words_of(s) =~= seq![w] + words_of(s.skip(n)));
            let u = s.skip(n);
            assert(u =~= " "@ + t);
            lemma_leading_space(t);
            assert(words_of(s) =~= words);
        }
    }
}

/// A space in front changes no words.
proof fn lemma_leading_space(t: Seq<char>)
    ensures
        words_of(" "@ + t) == words_of(t),
{
    reveal_strlit(" ");
    let u = " "@ + t;
    lemma_run_len(t, true);
    let n = run_len(t, true) as int;
    assert(u[0] == ' ');
    assert forall|i: int| 0 <= i < n + 1 implies is_space(#[trigger] u[i]) == true by {
        if i > 0 {
            assert(u[i] == t[i - 1]);
        }
    }
    if n < t.len() {
        assert(u[n + 1] == t[n]);
    }
    lemma_run_len_is(u, true, n + 1);
    assert(u.skip(n + 1) =~= t.skip(n));
}

/// `key=value` reads back as the key and the value.
pub proof fn lemma_word_reads_back(key: Seq<char>, value: Seq<char>)
    requires
        forall|i: int| 0 <= i < key.len() ==> #[trigger] key[i] != '=',
    ensures
        pair_of(word(key, value)) == Some((key, value)),
{
    reveal_strlit("=");
    let s = word(key, value);
    let n = key.len() as int;
    assert forall|i: int| 0 <= i < n implies #[trigger] s[i] != '=' by {
        assert(s[i] == key[i]);
    }
    assert(s[n] == '=');
    lemma_before_first_is(s, '=', n);
    assert(s.take(n) =~= key);
    assert(s.skip(n + 1) =~= value);
}

/// A word without `=` is no pair.
pub proof fn lemma_bare_word(s: Seq<char>)
    requires
        forall|i: int| 0 <= i < s.len() ==> #[trigger] s[i] != '=',
    ensures
        pair_of(s) is None,
{
    lemma_before_first_is(s, '=', s.len() as int);
}

/// The words of pairs.
pub open spec fn pair_words(pairs: Seq<Pair>) -> Seq<Seq<char>> {
    pairs.map_values(|p: Pair| word(p.0, p.1))
}

/// A key: a word without `=`.
pub open spec fn is_key(s: Seq<char>) -> bool {
    is_word(s) && forall|i: int| 0 <= i < s.len() ==> #[trigger] s[i] != '='
}

/// Pairs whose keys are keys and whose values hold no white space.
pub open spec fn plain_pairs(pairs: Seq<Pair>) -> bool {
    forall|i: int|
        0 <= i < pairs.len() ==> is_key((#[trigger] pairs[i]).0) && spaceless(pairs[i].1)
}

/// The words of pairs read back as the pairs.
pub proof fn lemma_later_pairs(pairs: Seq<Pair>)
    requires
        plain_pairs(pairs),
    ensures
        later_pairs(pair_words(pairs)) == Ok::<Seq<Pair>, Seq<char>>(pairs),
        all_words(pair_words(pairs)),
    decreases pairs.len(),
{
    reveal_strlit("=");
    let words = pair_words(pairs);
    assert forall|i: int| 0 <= i < words.len() implies is_word(#[trigger] words[i]) by {
        let p = pairs[i];
        assert(words[i] == word(p.0, p.1));
        assert(is_key(p.0));
        assert forall|k: int| 0 <= k < words[i].len() implies !is_space(#[trigger] words[i][k]) by {
            if k < p.0.len() {
                assert(words[i][k] == p.0[k]);
            } else if k > p.0.len() {
                assert(words[i][k] == p.1[k - p.0.len() - 1]);
            }
        }
    }
    if pairs.len() == 0 {
        assert(pairs =~= Seq::empty());
    } else {
        lemma_later_pairs(pairs.drop_last());
        assert(words.drop_last() =~= pair_words(pairs.drop_last()));
        assert(is_key(pairs.last().0));
        lemma_word_reads_back(pairs.last().0, pairs.last().1);
        assert(pairs.drop_last().push(pairs.last()) =~= pairs);
    }
}

/// A directive whose first word is bare.
pub proof fn lemma_bare_directive(head: Seq<char>, pairs: Seq<Pair>)
    requires
        is_key(head),
        plain_pairs(pairs),
    ensures
        all_words(seq![head] + pair_words(pairs)),
        pairs_of(joined(seq![head] + pair_words(pairs), " "@)) == Ok::<Seq<Pair>, Seq<char>>(
            seq![(head, ""@)] + pairs,
        ),
{
    let words = seq![head] + pair_words(pairs);
    lemma_later_pairs(pairs);
    assert forall|i: int| 0 <= i < words.len() implies is_word(#[trigger] words[i]) by {
        if i > 0 {
            assert(words[i] == pair_words(pairs)[i - 1]);
        }
    }
    lemma_words_read_back(words);
    lemma_bare_word(head);
    assert(words.drop_first() =~= pair_words(pairs));
}

/// A directive whose first word is a pair.
pub proof fn lemma_pair_directive(pairs: Seq<Pair>)
    requires
        plain_pairs(pairs),
        pairs.len() > 0,
    ensures
        all_words(pair_words(pairs)),
        pairs_of(joined(pair_words(pairs), " "@)) == Ok::<Seq<Pair>, Seq<char>>(pairs),
{
    let words = pair_words(pairs);
    let rest = pairs.drop_first();
    lemma_later_pairs(pairs);
    assert forall|i: int| 0 <= i < rest.len() implies is_key((#[trigger] rest[i]).0) && spaceless(
        rest[i].1,
    ) by {
        assert(rest[i] == pairs[i + 1]);
    }
    lemma_later_pairs(rest);
    lemma_words_read_back(words);
    assert(is_key(pairs[0].0));
    lemma_word_reads_back(pairs[0].0, pairs[0].1);
    assert(words.drop_first() =~= pair_words(rest));
    assert(seq![pairs[0]] + rest =~= pairs);
}

/// A number reads back from its digits, which are a word.
pub proof fn lemma_digits_read_back(n: nat)
    ensures
        digits_value(decimal_nat(n)) == Some(n),
        decimal_nat(n).len() > 0,
        decimal_nat(n)[0] != '+',
        spaceless(decimal_nat(n)),
        forall|i: int| 0 <= i < decimal_nat(n).len() ==> #[trigger] decimal_nat(n)[i] != '$',
    decreases n,
{
    let s = decimal_nat(n);
    if n < 10 {
        assert(s.drop_last() =~= Seq::empty());
        assert(digits_value(s.drop_last()) == Some(0nat));
        assert(digit_value(digit_char(n)) == Some(n));
    } else {
        lemma_digits_read_back(n / 10);
        assert(s.drop_last() =~= decimal_nat(n / 10));
        assert(digit_value(digit_char(n % 10)) == Some(n % 10));
        assert(n / 10 * 10 + n % 10 == n);
        assert(s[0] == decimal_nat(n / 10)[0]);
        assert forall|i: int| 0 <= i < s.len() implies !is_space(#[trigger] s[i]) && s[i]
            != '$' by {
            if i < s.len() - 1 {
                assert(s[i] == decimal_nat(n / 10)[i]);
            }
        }
    }
}

/// A number reads back.
pub proof fn lemma_number_reads_back(n: u32)
    ensures
        number_of(decimal_nat(n as nat)) == Ok::<u32, Seq<char>>(n),
        spaceless(decimal_nat(n as nat)),
{
    lemma_digits_read_back(n as nat);
}

/// A flag reads back.
pub proof fn lemma_flag_reads_back(b: bool)
    ensures
        flag_of(flag_text(b)) == Ok::<bool, Seq<char>>(b),
        spaceless(flag_text(b)),
{
    reveal_strlit("true");
    reveal_strlit("false");
    assert("true"@.len() != "false"@.len());
}

/// A kind reads back.
pub proof fn lemma_kind_reads_back(k: StepKind)
    ensures
        kind_of(kind_text(k)) == Ok::<StepKind, Seq<char>>(k),
{
    let s = kind_text(k);
    assert(kind_text(k) == s);
    let found = choose|j: StepKind| kind_text(j) == s;
    law_kind_names_are_distinct(found, k);
}

/// A name that is read as it is written: an unquoted identifier in lower case.
pub open spec fn plain_name(q: QnameModel) -> bool {
    &&& is_unquoted(q.schema)
    &&& folded(q.schema) == q.schema
    &&& is_unquoted(q.name)
    &&& folded(q.name) == q.name
}

/// A plain name reads back, and holds no white space and no comma.
pub proof fn lemma_qname_reads_back(q: QnameModel)
    requires
        plain_name(q),
    ensures
        qname_of(q.display()) == Ok::<QnameModel, Seq<char>>(q),
        is_word(q.display()),
        forall|i: int| 0 <= i < q.display().len() ==> #[trigger] q.display()[i] != ',',
{
    reveal_strlit(".");
    let s = q.display();
    let n = q.schema.len() as int;
    assert forall|i: int| 0 <= i < s.len() implies !is_space(#[trigger] s[i]) && s[i] != ',' && (i
        < n ==> s[i] != '.') by {
        if i < n {
            assert(s[i] == q.schema[i]);
            assert(continues_identifier(q.schema[i]));
        } else if i > n {
            assert(s[i] == q.name[i - n - 1]);
            assert(continues_identifier(q.name[i - n - 1]));
        }
    }
    assert(s[n] == '.');
    lemma_before_first_is(s, '.', n);
    assert(s.take(n) =~= q.schema);
    assert(s.skip(n + 1) =~= q.name);
}

/// Parts with a separator between them read back as the parts.
pub proof fn lemma_parts_read_back(parts: Seq<Seq<char>>, c: char, sep: Seq<char>)
    requires
        parts.len() > 0,
        sep == seq![c],
        forall|i: int, k: int|
            0 <= i < parts.len() && 0 <= k < parts[i].len() ==> #[trigger] parts[i][k] != c,
    ensures
        parts_of(joined(parts, sep), c) == parts,
    decreases parts.len(),
{
    let p = parts[0];
    let rest = parts.drop_first();
    assert(parts =~= seq![p] + rest);
    lemma_joined_front(p, rest, sep);
    let s = joined(parts, sep);
    let n = p.len() as int;
    if rest.len() == 0 {
        assert(s =~= p);
        assert forall|i: int| 0 <= i < n implies #[trigger] s[i] != c by {
            assert(parts[0][i] != c);
        }
        lemma_before_first_is(s, c, n);
        assert(parts_of(s, c) =~= parts);
    } else {
        let t = joined(rest, sep);
        assert(s =~= p + sep + t);
        assert forall|i: int| 0 <= i < n implies #[trigger] s[i] != c by {
            assert(parts[0][i] != c);
            assert(s[i] == p[i]);
        }
        assert(s[n] == c);
        lemma_before_first_is(s, c, n);
        assert(s.take(n) =~= p);
        assert(s.skip(n + 1) =~= t);
        assert forall|i: int, k: int|
            0 <= i < rest.len() && 0 <= k < rest[i].len() implies #[trigger] rest[i][k] != c by {
            assert(rest[i] == parts[i + 1]);
            assert(parts[i + 1][k] != c);
        }
        lemma_parts_read_back(rest, c, sep);
        assert(parts_of(s, c) =~= parts);
    }
}

/// The parts of a text, joined again, are the text.
pub proof fn lemma_parts_join(s: Seq<char>, c: char, sep: Seq<char>)
    requires
        sep == seq![c],
    ensures
        joined(parts_of(s, c), sep) == s,
        parts_of(s, c).len() > 0,
        forall|i: int, k: int|
            0 <= i < parts_of(s, c).len() && 0 <= k < parts_of(s, c)[i].len()
                ==> #[trigger] parts_of(s, c)[i][k] != c,
        parts_of(s, c).last().len() > 0 ==> s.len() > 0 && s.last() == parts_of(
            s,
            c,
        ).last().last(),
    decreases s.len(),
{
    lemma_before_first(s, c);
    let n = before_first(s, c) as int;
    let parts = parts_of(s, c);
    if n < s.len() {
        let rest = s.skip(n + 1);
        lemma_parts_join(rest, c, sep);
        lemma_joined_front(s.take(n), parts_of(rest, c), sep);
        assert(parts =~= seq![s.take(n)] + parts_of(rest, c));
        assert(joined(parts, sep) =~= s);
        assert forall|i: int, k: int|
            0 <= i < parts.len() && 0 <= k < parts[i].len() implies #[trigger] parts[i][k] != c by {
            if i == 0 {
                assert(parts[0][k] == s[k]);
            } else {
                assert(parts[i] == parts_of(rest, c)[i - 1]);
                assert(parts_of(rest, c)[i - 1][k] != c);
            }
        }
        assert(parts.last() == parts_of(rest, c).last());
        if parts.last().len() > 0 {
            assert(rest.last() == s.last());
        }
    } else {
        assert(parts =~= seq![s]);
        lemma_joined_front(s, Seq::empty(), sep);
        assert(seq![s] + Seq::<Seq<char>>::empty() =~= parts);
    }
}

/// Targets read back, and are one word's value.
pub proof fn lemma_targets_read_back(targets: Seq<QnameModel>)
    requires
        forall|i: int| 0 <= i < targets.len() ==> plain_name(#[trigger] targets[i]),
    ensures
        targets_of(target_list(targets)) == Ok::<Seq<QnameModel>, Seq<char>>(targets),
        spaceless(target_list(targets)),
{
    reveal_strlit(",");
    let parts = targets.map_values(|q: QnameModel| q.display());
    assert(","@ =~= seq![',']);
    if targets.len() == 0 {
        assert(target_list(targets).len() == 0);
        assert(targets =~= Seq::empty());
    } else {
        assert forall|i: int, k: int|
            0 <= i < parts.len() && 0 <= k < parts[i].len() implies #[trigger] parts[i][k]
            != ',' by {
            assert(plain_name(targets[i]));
            lemma_qname_reads_back(targets[i]);
            assert(parts[i] == targets[i].display());
        }
        lemma_parts_read_back(parts, ',', ","@);
        lemma_qnames(targets);
        lemma_spaceless_list(targets);
        assert(parts[0] == targets[0].display());
        assert(plain_name(targets[0]));
        lemma_qname_reads_back(targets[0]);
        assert(parts =~= seq![parts[0]] + parts.drop_first());
        lemma_joined_front(parts[0], parts.drop_first(), ","@);
        assert(target_list(targets).len() > 0);
    }
}

proof fn lemma_qnames(targets: Seq<QnameModel>)
    requires
        forall|i: int| 0 <= i < targets.len() ==> plain_name(#[trigger] targets[i]),
    ensures
        qnames_of(targets.map_values(|q: QnameModel| q.display())) == Ok::<
            Seq<QnameModel>,
            Seq<char>,
        >(targets),
    decreases targets.len(),
{
    let parts = targets.map_values(|q: QnameModel| q.display());
    if targets.len() == 0 {
        assert(targets =~= Seq::empty());
    } else {
        let rest = targets.drop_last();
        assert forall|i: int| 0 <= i < rest.len() implies plain_name(#[trigger] rest[i]) by {
            assert(rest[i] == targets[i]);
        }
        lemma_qnames(rest);
        assert(parts.drop_last() =~= rest.map_values(|q: QnameModel| q.display()));
        assert(plain_name(targets.last())) by {
            assert(plain_name(targets[targets.len() - 1]));
        }
        lemma_qname_reads_back(targets.last());
        assert(rest.push(targets.last()) =~= targets);
    }
}

proof fn lemma_spaceless_list(targets: Seq<QnameModel>)
    requires
        forall|i: int| 0 <= i < targets.len() ==> plain_name(#[trigger] targets[i]),
    ensures
        spaceless(target_list(targets)),
    decreases targets.len(),
{
    reveal_strlit(",");
    let parts = targets.map_values(|q: QnameModel| q.display());
    if targets.len() > 0 {
        let rest = targets.drop_last();
        assert forall|i: int| 0 <= i < rest.len() implies plain_name(#[trigger] rest[i]) by {
            assert(rest[i] == targets[i]);
        }
        lemma_spaceless_list(rest);
        assert(parts.drop_last() =~= rest.map_values(|q: QnameModel| q.display()));
        assert(plain_name(targets.last())) by {
            assert(plain_name(targets[targets.len() - 1]));
        }
        lemma_qname_reads_back(targets.last());
        let s = joined(parts, ","@);
        let head = joined(parts.drop_last(), ","@);
        let tail = targets.last().display();
        assert(parts.last() == tail);
        assert forall|i: int| 0 <= i < s.len() implies !is_space(#[trigger] s[i]) by {
            if parts.len() > 1 {
                assert(s =~= head + ","@ + tail);
                if i < head.len() {
                    assert(s[i] == head[i]);
                } else if i > head.len() {
                    assert(s[i] == tail[i - head.len() - 1]);
                }
            } else {
                assert(s =~= tail);
            }
        }
    }
}

} // verus!
