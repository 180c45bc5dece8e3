//! Dollar-quoted literals: `$tag$ ... $tag$`.

use crate::lines::list_between;
use vstd::prelude::*;

verus! {

/// A character that may begin a tag.
pub open spec fn starts_tag(c: char) -> bool {
    ('a' <= c && c <= 'z') || ('A' <= c && c <= 'Z') || c == '_'
}

/// A character that may continue a tag.
pub open spec fn continues_tag(c: char) -> bool {
    starts_tag(c) || ('0' <= c && c <= '9')
}

/// How many characters of a tag stand at the beginning of a text.
pub open spec fn tag_len(s: Seq<char>, first: bool) -> nat
    decreases s.len(),
{
    if s.len() > 0 && (if first {
        starts_tag(s[0])
    } else {
        continues_tag(s[0])
    }) {
        1 + tag_len(s.drop_first(), false)
    } else {
        0
    }
}

/// The tag of the marker `$tag$` that a text begins with, where it does.
pub open spec fn marker(s: Seq<char>) -> Option<Seq<char>> {
    let n = tag_len(s.drop_first(), true);
    if s.len() > 0 && s[0] == '$' && n + 1 < s.len() && s[n as int + 1] == '$' {
        Some(s.subrange(1, n as int + 1))
    } else {
        None
    }
}

/// The literal that is open at the end of a text, where `active` is open at
/// its beginning: a marker opens a literal where none is open, and closes the
/// one of its tag.
pub open spec fn still_open(s: Seq<char>, active: Option<Seq<char>>) -> Option<Seq<char>>
    decreases s.len(),
{
    if s.len() == 0 {
        active
    } else {
        match marker(s) {
            Some(tag) => {
                let next = match active {
                    Some(open) => if open == tag {
                        None
                    } else {
                        active
                    },
                    None => Some(tag),
                };
                still_open(s.skip(tag.len() as int + 2), next)
            },
            None => still_open(s.drop_first(), active),
        }
    }
}

/// The tag of the literal that a line opens and does not close.
pub open spec fn open_tag(line: Seq<char>) -> Option<Seq<char>> {
    still_open(line, None)
}

/// What is known of a tag's length.
pub proof fn lemma_tag_len(s: Seq<char>, first: bool)
    ensures
        tag_len(s, first) <= s.len(),
        forall|i: int|
            0 <= i < tag_len(s, first) ==> (if i == 0 && first {
                starts_tag(#[trigger] s[i])
            } else {
                continues_tag(s[i])
            }),
        tag_len(s, first) < s.len() ==> !(if tag_len(s, first) == 0 && first {
            starts_tag(s[tag_len(s, first) as int])
        } else {
            continues_tag(s[tag_len(s, first) as int])
        }),
    decreases s.len(),
{
    if s.len() > 0 && (if first {
        starts_tag(s[0])
    } else {
        continues_tag(s[0])
    }) {
        let rest = s.drop_first();
        lemma_tag_len(rest, false);
        assert forall|i: int| 0 <= i < tag_len(s, first) implies (if i == 0 && first {
            starts_tag(#[trigger] s[i])
        } else {
            continues_tag(s[i])
        }) by {
            if i > 0 {
                assert(s[i] == rest[i - 1]);
                assert(continues_tag(rest[i - 1]));
            }
        }
    }
}

proof fn lemma_tag_len_is(s: Seq<char>, first: bool, n: int)
    requires
        0 <= n <= s.len(),
        forall|i: int|
            0 <= i < n ==> (if i == 0 && first {
                starts_tag(#[trigger] s[i])
            } else {
                continues_tag(s[i])
            }),
        n < s.len() ==> !(if n == 0 && first {
            starts_tag(s[n])
        } else {
            continues_tag(s[n])
        }),
    ensures
        tag_len(s, first) == n,
{
    lemma_tag_len(s, first);
    let m = tag_len(s, first) as int;
    if m < n {
        assert(if m == 0 && first {
            starts_tag(s[m])
        } else {
            continues_tag(s[m])
        });
    } else if n < m {
        assert(if n == 0 && first {
            starts_tag(s[n])
        } else {
            continues_tag(s[n])
        });
    }
}

fn same_chars(a: &Vec<char>, b: &Vec<char>) -> (r: bool)
    ensures
        r == (a@ == b@),
{
    if a.len() != b.len() {
        return false;
    }
    let mut i: usize = 0;
    while i < a.len()
        invariant
            i <= a@.len(),
            a@.len() == b@.len(),
            forall|k: int| 0 <= k < i ==> #[trigger] a@[k] == b@[k],
        decreases a@.len() - i,
    {
        if a[i] != b[i] {
            return false;
        }
        i = i + 1;
    }
    assert(a@ =~= b@);
    true
}

/// The view of an optional list.
pub open spec fn opt_chars(o: Option<Vec<char>>) -> Option<Seq<char>> {
    match o {
        Some(v) => Some(v@),
        None => None,
    }
}

/// The tag of the literal that a line opens and does not close. Nothing for
/// lines without a literal, and for lines that close all they open.
pub fn detect_dollar_quote_open(line: &Vec<char>) -> (tag: Option<Vec<char>>)
    ensures
        opt_chars(tag) == open_tag(line@),
{
    let ghost s = line@;
    let mut active: Option<Vec<char>> = None;
    let mut i: usize = 0;
    assert(s.skip(0) =~= s);
    while i < line.len()
        invariant
            s == line@,
            i <= s.len(),
            still_open(s.skip(i as int), opt_chars(active)) == open_tag(s),
        decreases s.len() - i,
    {
        let ghost rest = s.skip(i as int);
        assert(rest[0] == s[i as int]);
        if line[i] == '$' {
            let from: usize = i + 1;
            let mut j: usize = from;
            let ghost tail = rest.drop_first();
            assert(tail =~= s.skip(from as int));
            let mut going = true;
            while going && j < line.len()
                invariant
                    s == line@,
                    from <= j <= s.len(),
                    tail == s.skip(from as int),
                    forall|k: int|
                        0 <= k < j - from ==> (if k == 0 {
                            starts_tag(#[trigger] tail[k])
                        } else {
                            continues_tag(tail[k])
                        }),
                    !going ==> j < s.len() && !(if j == from {
                        starts_tag(tail[j - from])
                    } else {
                        continues_tag(tail[j - from])
                    }),
                decreases s.len() - j, going as int,
            {
                let c = line[j];
                assert(tail[j - from] == c);
                let letter = ('a' <= c && c <= 'z') || ('A' <= c && c <= 'Z') || c == '_';
                let valid = letter || (j > from && '0' <= c && c <= '9');
                if valid {
                    j = j + 1;
                } else {
                    going = false;
                }
            }
            proof {
                lemma_tag_len_is(tail, true, j - from);
            }
            if j < line.len() && line[j] == '$' {
                let tag = list_between(line, from, j);
                proof {
                    assert(rest[j - i] == s[j as int]);
                    assert(rest.subrange(1, j - i) =~= tag@);
                    assert(marker(rest) == Some(tag@));
                    assert(rest.skip(tag@.len() as int + 2) =~= s.skip(j + 1));
                }
                match active {
                    Some(open) => {
                        if same_chars(&open, &tag) {
                            active = None;
                        } else {
                            active = Some(open);
                        }
                    },
                    None => {
                        active = Some(tag);
                    },
                }
                i = j + 1;
            } else {
                proof {
                    if j < s.len() {
                        assert(rest[j - i] == s[j as int]);
                    }
                    assert(marker(rest) is None);
                    assert(rest.drop_first() =~= s.skip(i + 1));
                }
                i = i + 1;
            }
        } else {
            proof {
                assert(marker(rest) is None);
                assert(rest.drop_first() =~= s.skip(i + 1));
            }
            i = i + 1;
        }
    }
    assert(s.skip(i as int).len() == 0);
    active
}

} // verus!
