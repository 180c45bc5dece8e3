//! Lines, words and white space.

use vstd::prelude::*;
use vstd::std_specs::iter::IteratorSpec;
use vstd::string::*;

verus! {

/// The characters of a text.
pub fn chars_of(s: &str) -> (chars: Vec<char>)
    ensures
        chars@ == s@,
{
    let mut out: Vec<char> = Vec::new();
    let mut rest = s.chars();
    assert(out@ + rest.remaining() =~= s@);
    loop
        invariant
            rest.decrease() is Some,
            out@ + rest.remaining() == s@,
        ensures
            out@ == s@,
        decreases rest.decrease()->0,
    {
        let ghost left = rest.remaining();
        let ghost seen = out@;
        match rest.next() {
            None => {
                assert(out@ =~= s@);
                break;
            },
            Some(c) => {
                assert(left =~= seq![c] + rest.remaining());
                out.push(c);
                assert(out@ + rest.remaining() =~= seen + left);
            },
        }
    }
    out
}

/// A part of a text.
pub fn text_between(chars: &Vec<char>, from: usize, to: usize) -> (text: String)
    requires
        from <= to <= chars@.len(),
    ensures
        text@ == chars@.subrange(from as int, to as int),
{
    let mut out = String::new();
    let mut i: usize = from;
    assert(out@ =~= chars@.subrange(from as int, from as int));
    while i < to
        invariant
            from <= i <= to <= chars@.len(),
            out@ == chars@.subrange(from as int, i as int),
        decreases to - i,
    {
        out.push(chars[i]);
        assert(out@ =~= chars@.subrange(from as int, i + 1));
        i = i + 1;
    }
    out
}

/// The characters with the Unicode property `White_Space`.
pub open spec fn is_space(c: char) -> bool {
    ||| ('\u{9}' <= c && c <= '\u{d}')
    ||| c == ' '
    ||| c == '\u{85}'
    ||| c == '\u{a0}'
    ||| c == '\u{1680}'
    ||| ('\u{2000}' <= c && c <= '\u{200a}')
    ||| c == '\u{2028}'
    ||| c == '\u{2029}'
    ||| c == '\u{202f}'
    ||| c == '\u{205f}'
    ||| c == '\u{3000}'
}

/// Tells whether a character is white space.
pub fn space(c: char) -> (r: bool)
    ensures
        r == is_space(c),
{
    ('\u{9}' <= c && c <= '\u{d}') || c == ' ' || c == '\u{85}' || c == '\u{a0}' || c == '\u{1680}'
        || ('\u{2000}' <= c && c <= '\u{200a}') || c == '\u{2028}' || c == '\u{2029}' || c
        == '\u{202f}' || c == '\u{205f}' || c == '\u{3000}'
}

/// A text without the white space at its end.
pub open spec fn trimmed_end(s: Seq<char>) -> Seq<char>
    decreases s.len(),
{
    if s.len() > 0 && is_space(s.last()) {
        trimmed_end(s.drop_last())
    } else {
        s
    }
}

/// Where the white space at the end of a text begins.
pub fn end_without_space(chars: &Vec<char>) -> (n: usize)
    ensures
        n <= chars@.len(),
        chars@.take(n as int) == trimmed_end(chars@),
{
    let mut n: usize = chars.len();
    assert(chars@.take(n as int) =~= chars@);
    while n > 0 && space(chars[n - 1])
        invariant
            n <= chars@.len(),
            trimmed_end(chars@.take(n as int)) == trimmed_end(chars@),
        decreases n,
    {
        assert(chars@.take(n as int).drop_last() =~= chars@.take(n - 1));
        n = n - 1;
    }
    n
}

/// The lines of a text: it is cut at `\n` and `\r\n`; a line ending at the
/// end of the text starts no further line.
pub open spec fn lines_of(s: Seq<char>) -> Seq<Seq<char>>
    decreases s.len(),
{
    if s.len() == 0 {
        Seq::empty()
    } else {
        let n = line_len(s);
        if n < s.len() {
            seq![without_return(s.take(n as int))] + lines_of(s.skip(n as int + 1))
        } else {
            seq![s]
        }
    }
}

/// How many characters stand before the first `\n`.
pub open spec fn line_len(s: Seq<char>) -> nat
    decreases s.len(),
{
    if s.len() == 0 || s[0] == '\n' {
        0
    } else {
        1 + line_len(s.drop_first())
    }
}

/// A line without a `\r` at its end.
pub open spec fn without_return(line: Seq<char>) -> Seq<char> {
    if line.len() > 0 && line.last() == '\r' {
        line.drop_last()
    } else {
        line
    }
}

/// What is known of the first `\n`.
pub proof fn lemma_line_len(s: Seq<char>)
    ensures
        line_len(s) <= s.len(),
        line_len(s) < s.len() ==> s[line_len(s) as int] == '\n',
        forall|i: int| 0 <= i < line_len(s) ==> #[trigger] s[i] != '\n',
    decreases s.len(),
{
    if s.len() > 0 && s[0] != '\n' {
        lemma_line_len(s.drop_first());
        assert forall|i: int| 0 <= i < line_len(s) implies #[trigger] s[i] != '\n' by {
            if i > 0 {
                assert(s[i] == s.drop_first()[i - 1]);
            }
        }
    }
}

/// The first `\n` is where it is seen first.
pub proof fn lemma_line_len_is(s: Seq<char>, n: int)
    requires
        0 <= n <= s.len(),
        n < s.len() ==> s[n] == '\n',
        forall|i: int| 0 <= i < n ==> #[trigger] s[i] != '\n',
    ensures
        line_len(s) == n,
{
    lemma_line_len(s);
    if line_len(s) < n {
        assert(s[line_len(s) as int] != '\n');
    } else if n < line_len(s) {
        assert(s[n] != '\n');
    }
}

/// Cuts a text into lines.
pub fn split_lines(s: &str) -> (lines: Vec<Vec<char>>)
    ensures
        char_lists(lines@) == lines_of(s@),
{
    let chars = chars_of(s);
    let mut out: Vec<Vec<char>> = Vec::new();
    let mut from: usize = 0;
    assert(chars@.skip(0) =~= s@);
    assert(char_lists(out@) + lines_of(s@.skip(0)) =~= lines_of(s@));
    while from < chars.len()
        invariant
            chars@ == s@,
            from <= chars@.len(),
            char_lists(out@) + lines_of(s@.skip(from as int)) == lines_of(s@),
        decreases chars@.len() - from,
    {
        let ghost rest = s@.skip(from as int);
        let mut to: usize = from;
        while to < chars.len() && chars[to] != '\n'
            invariant
                chars@ == s@,
                rest == s@.skip(from as int),
                from <= to <= chars@.len(),
                forall|i: int| 0 <= i < to - from ==> #[trigger] rest[i] != '\n',
            decreases chars@.len() - to,
        {
            assert(rest[to - from] == chars@[to as int]);
            to = to + 1;
        }
        proof {
            if to < chars@.len() {
                assert(rest[to - from] == chars@[to as int]);
            }
            lemma_line_len_is(rest, to - from);
        }
        let mut end: usize = to;
        if to < chars.len() && to > from && chars[to - 1] == '\r' {
            end = to - 1;
        }
        let ghost before = char_lists(out@);
        let line = list_between(&chars, from, end);
        out.push(line);
        assert(char_lists(out@) =~= before.push(line@));
        let ghost next = if to < chars@.len() {
            to + 1
        } else {
            to as int
        };
        proof {
            if to < chars@.len() {
                assert(rest.take(to - from) =~= s@.subrange(from as int, to as int));
                assert(line@ =~= without_return(rest.take(to - from)));
                assert(rest.skip(to - from + 1) =~= s@.skip(to + 1));
            } else {
                assert(line@ =~= rest);
                assert(s@.skip(next).len() == 0);
            }
            assert(lines_of(rest) =~= seq![line@] + lines_of(s@.skip(next)));
            assert(char_lists(out@) + lines_of(s@.skip(next)) =~= before + lines_of(rest));
        }
        if to < chars.len() {
            from = to + 1;
        } else {
            from = to;
        }
    }
    assert(s@.skip(from as int).len() == 0);
    assert(char_lists(out@) + lines_of(s@.skip(from as int)) =~= char_lists(out@));
    out
}

/// The views of a list of lists.
pub open spec fn char_lists(list: Seq<Vec<char>>) -> Seq<Seq<char>> {
    list.map_values(|l: Vec<char>| l@)
}

/// A part of a list of characters.
pub fn list_between(chars: &Vec<char>, from: usize, to: usize) -> (part: Vec<char>)
    requires
        from <= to <= chars@.len(),
    ensures
        part@ == chars@.subrange(from as int, to as int),
{
    let mut out: Vec<char> = Vec::new();
    let mut i: usize = from;
    assert(out@ =~= chars@.subrange(from as int, from as int));
    while i < to
        invariant
            from <= i <= to <= chars@.len(),
            out@ == chars@.subrange(from as int, i as int),
        decreases to - i,
    {
        out.push(chars[i]);
        assert(out@ =~= chars@.subrange(from as int, i + 1));
        i = i + 1;
    }
    out
}

/// How many characters of a text stand before the first one that is white
/// space, or that is not.
pub open spec fn run_len(s: Seq<char>, of_space: bool) -> nat
    decreases s.len(),
{
    if s.len() > 0 && is_space(s[0]) == of_space {
        1 + run_len(s.drop_first(), of_space)
    } else {
        0
    }
}

/// What is known of such a run.
pub proof fn lemma_run_len(s: Seq<char>, of_space: bool)
    ensures
        run_len(s, of_space) <= s.len(),
        forall|i: int| 0 <= i < run_len(s, of_space) ==> is_space(#[trigger] s[i]) == of_space,
        run_len(s, of_space) < s.len() ==> is_space(s[run_len(s, of_space) as int]) != of_space,
    decreases s.len(),
{
    if s.len() > 0 && is_space(s[0]) == of_space {
        let rest = s.drop_first();
        lemma_run_len(rest, of_space);
        assert forall|i: int| 0 <= i < run_len(s, of_space) implies is_space(#[trigger] s[i])
            == of_space by {
            if i > 0 {
                assert(s[i] == rest[i - 1]);
            }
        }
    }
}

/// A run ends where the first other character stands.
pub proof fn lemma_run_len_is(s: Seq<char>, of_space: bool, n: int)
    requires
        0 <= n <= s.len(),
        forall|i: int| 0 <= i < n ==> is_space(#[trigger] s[i]) == of_space,
        n < s.len() ==> is_space(s[n]) != of_space,
    ensures
        run_len(s, of_space) == n,
{
    lemma_run_len(s, of_space);
    let m = run_len(s, of_space) as int;
    if m < n {
        assert(is_space(s[m]) == of_space);
    } else if n < m {
        assert(is_space(s[n]) == of_space);
    }
}

/// The words of a text: the runs of characters that are not white space.
pub open spec fn words_of(s: Seq<char>) -> Seq<Seq<char>>
    decreases s.len(),
    when s.len() >= 0
    via words_of_decreases
{
    let rest = s.skip(run_len(s, true) as int);
    if rest.len() == 0 {
        Seq::empty()
    } else {
        let n = run_len(rest, false);
        seq![rest.take(n as int)] + words_of(rest.skip(n as int))
    }
}

#[via_fn]
proof fn words_of_decreases(s: Seq<char>) {
    let rest = s.skip(run_len(s, true) as int);
    lemma_run_len(s, true);
    lemma_run_len(rest, false);
    if rest.len() > 0 {
        assert(rest[0] == s[run_len(s, true) as int]);
    }
}

/// Cuts a text into words.
pub fn split_words(chars: &Vec<char>) -> (words: Vec<Vec<char>>)
    ensures
        char_lists(words@) == words_of(chars@),
{
    let ghost s = chars@;
    let mut out: Vec<Vec<char>> = Vec::new();
    let mut at: usize = 0;
    assert(s.skip(0) =~= s);
    assert(char_lists(out@) + words_of(s.skip(0)) =~= words_of(s));
    while at < chars.len()
        invariant
            s == chars@,
            at <= s.len(),
            char_lists(out@) + words_of(s.skip(at as int)) == words_of(s),
        decreases s.len() - at,
    {
        let ghost here = s.skip(at as int);
        let mut from: usize = at;
        while from < chars.len() && space(chars[from])
            invariant
                s == chars@,
                here == s.skip(at as int),
                at <= from <= s.len(),
                forall|i: int| 0 <= i < from - at ==> is_space(#[trigger] here[i]),
            decreases s.len() - from,
        {
            assert(here[from - at] == s[from as int]);
            from = from + 1;
        }
        proof {
            if from < s.len() {
                assert(here[from - at] == s[from as int]);
            }
            lemma_run_len_is(here, true, from - at);
            assert(here.skip(from - at) =~= s.skip(from as int));
        }
        let ghost rest = s.skip(from as int);
        let mut to: usize = from;
        while to < chars.len() && !space(chars[to])
            invariant
                s == chars@,
                rest == s.skip(from as int),
                from <= to <= s.len(),
                forall|i: int| 0 <= i < to - from ==> !is_space(#[trigger] rest[i]),
            decreases s.len() - to,
        {
            assert(rest[to - from] == s[to as int]);
            to = to + 1;
        }
        proof {
            if to < s.len() {
                assert(rest[to - from] == s[to as int]);
            }
            lemma_run_len_is(rest, false, to - from);
            assert(rest.skip(to - from) =~= s.skip(to as int));
        }
        let ghost before = char_lists(out@);
        if to > from {
            let word = list_between(chars, from, to);
            out.push(word);
            proof {
                assert(char_lists(out@) =~= before.push(word@));
                assert(rest.take(to - from) =~= word@);
                assert(words_of(here) =~= seq![word@] + words_of(s.skip(to as int)));
                assert(char_lists(out@) + words_of(s.skip(to as int)) =~= before + words_of(here));
            }
        } else {
            proof {
                if from < s.len() {
                    assert(rest[0] == s[from as int]);
                }
                assert(from == s.len());
                assert(words_of(here) =~= Seq::empty());
                assert(words_of(s.skip(to as int)) =~= Seq::empty()) by {
                    lemma_run_len(s.skip(to as int), true);
                }
            }
        }
        at = to;
    }
    proof {
        assert(s.skip(at as int).len() == 0);
        lemma_run_len(s.skip(at as int), true);
        assert(words_of(s.skip(at as int)) =~= Seq::empty());
        assert(char_lists(out@) + words_of(s.skip(at as int)) =~= char_lists(out@));
    }
    out
}

/// How many characters stand before the first `c`.
pub open spec fn before_first(s: Seq<char>, c: char) -> nat
    decreases s.len(),
{
    if s.len() == 0 || s[0] == c {
        0
    } else {
        1 + before_first(s.drop_first(), c)
    }
}

/// What is known of the first `c`.
pub proof fn lemma_before_first(s: Seq<char>, c: char)
    ensures
        before_first(s, c) <= s.len(),
        before_first(s, c) < s.len() ==> s[before_first(s, c) as int] == c,
        forall|i: int| 0 <= i < before_first(s, c) ==> #[trigger] s[i] != c,
    decreases s.len(),
{
    if s.len() > 0 && s[0] != c {
        let rest = s.drop_first();
        lemma_before_first(rest, c);
        assert forall|i: int| 0 <= i < before_first(s, c) implies #[trigger] s[i] != c by {
            if i > 0 {
                assert(s[i] == rest[i - 1]);
            }
        }
    }
}

/// The first `c` is where it is seen first.
pub proof fn lemma_before_first_is(s: Seq<char>, c: char, n: int)
    requires
        0 <= n <= s.len(),
        n < s.len() ==> s[n] == c,
        forall|i: int| 0 <= i < n ==> #[trigger] s[i] != c,
    ensures
        before_first(s, c) == n,
{
    lemma_before_first(s, c);
    let m = before_first(s, c) as int;
    if m < n {
        assert(s[m] != c);
    } else if n < m {
        assert(s[n] != c);
    }
}

/// A text cut at the first `c`, where there is one.
pub open spec fn cut_once(s: Seq<char>, c: char) -> Option<(Seq<char>, Seq<char>)> {
    let n = before_first(s, c);
    if n < s.len() {
        Some((s.take(n as int), s.skip(n as int + 1)))
    } else {
        None
    }
}

/// Where the first `c` stands; the length where there is none.
pub fn find_char(chars: &Vec<char>, c: char) -> (n: usize)
    ensures
        n == before_first(chars@, c),
        n <= chars@.len(),
{
    let mut n: usize = 0;
    while n < chars.len() && chars[n] != c
        invariant
            n <= chars@.len(),
            forall|i: int| 0 <= i < n ==> #[trigger] chars@[i] != c,
        decreases chars@.len() - n,
    {
        n = n + 1;
    }
    proof {
        lemma_before_first_is(chars@, c, n as int);
    }
    n
}

/// The parts of a text between occurrences of `c`: one more than there are.
pub open spec fn parts_of(s: Seq<char>, c: char) -> Seq<Seq<char>>
    decreases s.len(),
    when s.len() >= 0
    via parts_of_decreases
{
    let n = before_first(s, c);
    if n < s.len() {
        seq![s.take(n as int)] + parts_of(s.skip(n as int + 1), c)
    } else {
        seq![s]
    }
}

#[via_fn]
proof fn parts_of_decreases(s: Seq<char>, c: char) {
    lemma_before_first(s, c);
}

/// Cuts a text at every `c`.
pub fn split_at_char(chars: &Vec<char>, c: char) -> (parts: Vec<Vec<char>>)
    ensures
        char_lists(parts@) == parts_of(chars@, c),
{
    let ghost s = chars@;
    let mut out: Vec<Vec<char>> = Vec::new();
    let mut from: usize = 0;
    assert(s.skip(0) =~= s);
    assert(char_lists(out@) + parts_of(s.skip(0), c) =~= parts_of(s, c));
    loop
        invariant_except_break
            char_lists(out@) + parts_of(s.skip(from as int), c) == parts_of(s, c),
        invariant
            s == chars@,
            from <= s.len(),
        ensures
            char_lists(out@) == parts_of(s, c),
        decreases s.len() - from,
    {
        let ghost rest = s.skip(from as int);
        let mut to: usize = from;
        while to < chars.len() && chars[to] != c
            invariant
                s == chars@,
                rest == s.skip(from as int),
                from <= to <= s.len(),
                forall|i: int| 0 <= i < to - from ==> #[trigger] rest[i] != c,
            decreases s.len() - to,
        {
            assert(rest[to - from] == s[to as int]);
            to = to + 1;
        }
        proof {
            if to < s.len() {
                assert(rest[to - from] == s[to as int]);
            }
            lemma_before_first_is(rest, c, to - from);
        }
        let ghost before = char_lists(out@);
        let part = list_between(chars, from, to);
        out.push(part);
        assert(char_lists(out@) =~= before.push(part@));
        if to < chars.len() {
            proof {
                assert(rest.take(to - from) =~= part@);
                assert(rest.skip(to - from + 1) =~= s.skip(to + 1));
                assert(char_lists(out@) + parts_of(s.skip(to + 1), c) =~= before + parts_of(
                    rest,
                    c,
                ));
            }
            from = to + 1;
        } else {
            proof {
                assert(part@ =~= rest);
                assert(char_lists(out@) =~= before + parts_of(rest, c));
            }
            break;
        }
    }
    out
}

/// Whether a text begins with another.
pub open spec fn begins(s: Seq<char>, head: Seq<char>) -> bool {
    head.len() <= s.len() && s.take(head.len() as int) == head
}

/// Tells whether the text at a place begins with another.
pub fn begins_at(chars: &Vec<char>, at: usize, head: &Vec<char>) -> (r: bool)
    requires
        at <= chars@.len(),
    ensures
        r == begins(chars@.skip(at as int), head@),
{
    if chars.len() - at < head.len() {
        return false;
    }
    let ghost rest = chars@.skip(at as int);
    let mut i: usize = 0;
    while i < head.len()
        invariant
            i <= head@.len(),
            at + head@.len() <= chars@.len() <= usize::MAX,
            rest == chars@.skip(at as int),
            forall|k: int| 0 <= k < i ==> rest[k] == #[trigger] head@[k],
        decreases head@.len() - i,
    {
        assert(rest[i as int] == chars@[at + i]);
        if chars[at + i] != head[i] {
            assert(rest.take(head@.len() as int)[i as int] != head@[i as int]);
            return false;
        }
        i = i + 1;
    }
    assert(rest.take(head@.len() as int) =~= head@);
    true
}

/// Whether a text holds another.
pub open spec fn holds(s: Seq<char>, part: Seq<char>) -> bool {
    exists|i: int| 0 <= i <= s.len() && begins(#[trigger] s.skip(i), part)
}

/// Tells whether a text holds another.
pub fn holds_text(chars: &Vec<char>, part: &Vec<char>) -> (r: bool)
    ensures
        r == holds(chars@, part@),
{
    let mut i: usize = 0;
    loop
        invariant
            i <= chars@.len(),
            forall|k: int| 0 <= k < i ==> !begins(#[trigger] chars@.skip(k), part@),
        decreases chars@.len() - i,
    {
        if begins_at(chars, i, part) {
            assert(begins(chars@.skip(i as int), part@));
            return true;
        }
        if i == chars.len() {
            return false;
        }
        i = i + 1;
    }
}

} // verus!
