//! Text building: joining, quoting and decimal rendering.

use crate::order::{compare_text, Placement};
use vstd::prelude::*;
use vstd::std_specs::iter::IteratorSpec;
use vstd::string::*;

verus! {

/// [`String::push`]: appends one character at the end.
pub assume_specification[ String::push ](s: &mut String, c: char)
    ensures
        final(s)@ == old(s)@.push(c),
;

/// The texts, each pair of neighbours separated by `sep`.
pub open spec fn joined(parts: Seq<Seq<char>>, sep: Seq<char>) -> Seq<char>
    decreases parts.len(),
{
    if parts.len() == 0 {
        Seq::empty()
    } else if parts.len() == 1 {
        parts[0]
    } else {
        joined(parts.drop_last(), sep) + sep + parts.last()
    }
}

/// The text with every occurrence of `c` written twice.
pub open spec fn doubled(s: Seq<char>, c: char) -> Seq<char>
    decreases s.len(),
{
    if s.len() == 0 {
        Seq::empty()
    } else if s.last() == c {
        doubled(s.drop_last(), c).push(c).push(c)
    } else {
        doubled(s.drop_last(), c).push(s.last())
    }
}

/// The decimal digits of a natural number, without leading zeros.
pub open spec fn decimal_nat(n: nat) -> Seq<char>
    decreases n,
{
    if n < 10 {
        seq![digit_char(n)]
    } else {
        decimal_nat(n / 10).push(digit_char(n % 10))
    }
}

/// The character that writes one decimal digit.
pub open spec fn digit_char(d: nat) -> char {
    if d == 0 {
        '0'
    } else if d == 1 {
        '1'
    } else if d == 2 {
        '2'
    } else if d == 3 {
        '3'
    } else if d == 4 {
        '4'
    } else if d == 5 {
        '5'
    } else if d == 6 {
        '6'
    } else if d == 7 {
        '7'
    } else if d == 8 {
        '8'
    } else {
        '9'
    }
}

/// An integer in decimal, with a minus sign where it is negative.
pub open spec fn decimal(n: int) -> Seq<char> {
    if n < 0 {
        "-"@ + decimal_nat((-n) as nat)
    } else {
        decimal_nat(n as nat)
    }
}

/// A value with an SQL text.
pub trait SqlText {
    /// The SQL text.
    spec fn sql(&self) -> Seq<char>;
}

/// A value that renders its SQL text.
pub trait ToSql: SqlText + Sized {
    /// Renders the SQL text.
    fn render_sql(&self) -> (text: String)
        ensures
            text@ == self.sql(),
    ;
}

/// The SQL texts of a list.
pub open spec fn sqls<T: SqlText>(list: Seq<T>) -> Seq<Seq<char>> {
    list.map_values(|t: T| t.sql())
}

/// The views of a list of strings.
pub open spec fn texts(list: Seq<String>) -> Seq<Seq<char>> {
    list.map_values(|s: String| s@)
}

/// The view of an optional string.
pub open spec fn opt_text(s: Option<String>) -> Option<Seq<char>> {
    match s {
        Some(s) => Some(s@),
        None => None,
    }
}

/// Decides whether two texts are the same.
pub fn text_eq(a: &str, b: &str) -> (same: bool)
    ensures
        same == (a@ == b@),
{
    match compare_text(a, b) {
        Placement::Same => true,
        _ => false,
    }
}

/// A second copy of an optional string.
pub fn dup_opt_text(s: &Option<String>) -> (copy: Option<String>)
    ensures
        copy == *s,
{
    match s {
        Some(t) => Some(t.clone()),
        None => None,
    }
}

/// Appends the text with every occurrence of `c` written twice.
pub fn append_doubled(out: &mut String, s: &str, c: char)
    ensures
        final(out)@ == old(out)@ + doubled(s@, c),
{
    let ghost start = out@;
    let ghost mut seen: Seq<char> = Seq::empty();
    let mut rest = s.chars();
    assert(out@ =~= start + doubled(seen, c));
    assert(seen + rest.remaining() =~= s@);
    loop
        invariant
            rest.decrease() is Some,
            seen + rest.remaining() == s@,
            out@ == start + doubled(seen, c),
        ensures
            seen == s@,
            out@ == start + doubled(seen, c),
        decreases rest.decrease()->0,
    {
        let ghost left = rest.remaining();
        match rest.next() {
            None => {
                assert(seen =~= s@);
                break;
            },
            Some(d) => {
                let ghost next = seen.push(d);
                assert(next.drop_last() =~= seen);
                assert(left =~= seq![d] + rest.remaining());
                assert(next + rest.remaining() =~= s@);
                if d == c {
                    out.push(c);
                    out.push(c);
                } else {
                    out.push(d);
                }
                assert(out@ =~= start + doubled(next, c));
                proof {
                    seen = next;
                }
            },
        }
    }
}

/// Appends the body of a single-quoted SQL literal.
pub fn append_literal_body(out: &mut String, s: &str)
    ensures
        final(out)@ == old(out)@ + doubled(s@, '\''),
{
    append_doubled(out, s, '\'');
}

/// The body of a single-quoted SQL literal.
pub fn literal_body(s: &str) -> (text: String)
    ensures
        text@ == doubled(s@, '\''),
{
    let mut out = String::new();
    append_literal_body(&mut out, s);
    assert(out@ =~= doubled(s@, '\''));
    out
}

/// The character that writes one decimal digit.
pub fn digit(d: u64) -> (c: char)
    requires
        d < 10,
    ensures
        c == digit_char(d as nat),
{
    match d {
        0 => '0',
        1 => '1',
        2 => '2',
        3 => '3',
        4 => '4',
        5 => '5',
        6 => '6',
        7 => '7',
        8 => '8',
        _ => '9',
    }
}

/// Appends an unsigned number in decimal.
pub fn append_u64(out: &mut String, n: u64)
    ensures
        final(out)@ == old(out)@ + decimal_nat(n as nat),
    decreases n,
{
    let ghost start = out@;
    if n >= 10 {
        append_u64(out, n / 10);
    }
    out.push(digit(n % 10));
    assert(out@ =~= start + decimal_nat(n as nat));
}

/// Appends a signed number in decimal.
pub fn append_i64(out: &mut String, n: i64)
    ensures
        final(out)@ == old(out)@ + decimal(n as int),
{
    let ghost start = out@;
    if n < 0 {
        out.append("-");
        let magnitude: u64 = if n == i64::MIN {
            9223372036854775808
        } else {
            (-n) as u64
        };
        append_u64(out, magnitude);
        assert(out@ =~= start + ("-"@ + decimal_nat(magnitude as nat)));
    } else {
        append_u64(out, n as u64);
    }
}

/// An unsigned number in decimal.
pub fn u32_text(n: u32) -> (text: String)
    ensures
        text@ == decimal_nat(n as nat),
{
    let mut out = String::new();
    append_u64(&mut out, n as u64);
    assert(out@ =~= decimal_nat(n as nat));
    out
}

/// Appending one more part to a joined list.
pub proof fn lemma_joined_push(parts: Seq<Seq<char>>, part: Seq<char>, sep: Seq<char>)
    ensures
        joined(parts.push(part), sep) == if parts.len() == 0 {
            part
        } else {
            joined(parts, sep) + sep + part
        },
{
    assert(parts.push(part).drop_last() =~= parts);
}

/// Joins texts with a separator.
pub fn join(parts: &Vec<String>, sep: &str) -> (text: String)
    ensures
        text@ == joined(texts(parts@), sep@),
{
    let mut out = String::new();
    let ghost all = texts(parts@);
    let mut i: usize = 0;
    assert(out@ =~= joined(all.take(0), sep@));
    while i < parts.len()
        invariant
            i <= parts@.len(),
            all == texts(parts@),
            out@ == joined(all.take(i as int), sep@),
        decreases parts@.len() - i,
    {
        proof {
            lemma_joined_push(all.take(i as int), all[i as int], sep@);
            assert(all.take(i + 1) =~= all.take(i as int).push(all[i as int]));
        }
        if i > 0 {
            out.append(sep);
        } else {
            assert(out@ =~= Seq::<char>::empty());
        }
        let ghost before = out@;
        out.append(parts[i].as_str());
        assert(i == 0 ==> out@ =~= all[0]);
        i = i + 1;
    }
    assert(all.take(all.len() as int) =~= all);
    out
}

/// Renders a list and joins it with a separator.
pub fn join_sql<T: ToSql>(list: &Vec<T>, sep: &str) -> (text: String)
    ensures
        text@ == joined(sqls(list@), sep@),
{
    let mut parts: Vec<String> = Vec::new();
    let mut i: usize = 0;
    while i < list.len()
        invariant
            i <= list@.len(),
            texts(parts@) =~= sqls(list@).take(i as int),
        decreases list@.len() - i,
    {
        let ghost before = texts(parts@);
        let part = list[i].render_sql();
        parts.push(part);
        assert(texts(parts@) =~= before.push(part@));
        i = i + 1;
    }
    assert(texts(parts@) =~= sqls(list@));
    join(&parts, sep)
}

/// The view of an optional string slice.
pub open spec fn opt_str(s: Option<&str>) -> Option<Seq<char>> {
    match s {
        Some(s) => Some(s@),
        None => None,
    }
}

/// An optional string as an optional slice.
pub fn as_deref(s: &Option<String>) -> (r: Option<&str>)
    ensures
        opt_str(r) == opt_text(*s),
{
    match s {
        Some(t) => Some(t.as_str()),
        None => None,
    }
}

/// Appends the SQL text of a value.
pub fn append_sql<T: ToSql>(out: &mut String, value: &T)
    ensures
        final(out)@ == old(out)@ + value.sql(),
{
    let text = value.render_sql();
    out.append(text.as_str());
}

/// Appends a list of SQL texts, joined with a separator.
pub fn append_sql_list<T: ToSql>(out: &mut String, list: &Vec<T>, sep: &str)
    ensures
        final(out)@ == old(out)@ + joined(sqls(list@), sep@),
{
    let text = join_sql(list, sep);
    out.append(text.as_str());
}

/// A `COMMENT ON` statement: the comment as a literal, or `NULL`.
pub open spec fn with_comment(head: Seq<char>, comment: Option<Seq<char>>) -> Seq<char> {
    match comment {
        Some(text) => head + " IS '"@ + doubled(text, '\'') + "';"@,
        None => head + " IS NULL;"@,
    }
}

/// Completes a `COMMENT ON` statement.
pub fn finish_comment(head: String, comment: Option<&str>) -> (text: String)
    ensures
        text@ == with_comment(head@, opt_str(comment)),
{
    let mut out = head;
    match comment {
        Some(text) => {
            out.append(" IS '");
            append_literal_body(&mut out, text);
            out.append("';");
        },
        None => {
            out.append(" IS NULL;");
        },
    }
    out
}

/// A literal followed by an SQL text.
pub fn prefixed<T: ToSql>(head: &str, value: &T) -> (text: String)
    ensures
        text@ == head@ + value.sql(),
{
    let mut out = head.to_owned();
    append_sql(&mut out, value);
    out
}

/// Doubling a character loses nothing: different texts stay different.
pub proof fn law_doubling_is_injective(a: Seq<char>, b: Seq<char>, c: char)
    requires
        doubled(a, c) == doubled(b, c),
    ensures
        a == b,
    decreases a.len() + b.len(),
{
    let x = doubled(a, c);
    let y = doubled(b, c);
    if a.len() == 0 || b.len() == 0 {
        assert(a =~= b);
    } else {
        let (p, q) = (a.drop_last(), b.drop_last());
        assert(x.last() == a.last() && y.last() == b.last());
        if a.last() == c {
            assert(x.drop_last().drop_last() =~= doubled(p, c));
            assert(y.drop_last().drop_last() =~= doubled(q, c));
        } else {
            assert(x.drop_last() =~= doubled(p, c));
            assert(y.drop_last() =~= doubled(q, c));
        }
        law_doubling_is_injective(p, q, c);
        assert(a =~= p.push(a.last()));
        assert(b =~= q.push(b.last()));
    }
}

} // verus!
