//! HTML attribute scrubbing.
//!
//! Article bodies fetched from the web keep their markup, but presentation
//! attributes are stripped before storage. `remove_attribute` deletes every
//! ` attr="…"` and ` attr='…'` occurrence, scanning from the start after
//! each removal, and leaves a dangling, unterminated attribute untouched.

use vstd::prelude::*;

use crate::strutil::{chars_to_string, match_at, to_chars};

verus! {

/// The position of the first occurrence of `pat` in `s` at or after `i`.
pub open spec fn find_from(s: Seq<char>, pat: Seq<char>, i: int) -> Option<int>
    decreases s.len() - i,
{
    if i < 0 || i + pat.len() > s.len() {
        None
    } else if pat.len() == 0 {
        Some(i)
    } else if s.subrange(i, i + pat.len()) == pat {
        Some(i)
    } else {
        find_from(s, pat, i + 1)
    }
}

/// The position of the first occurrence of the character `c` at or after `i`.
pub open spec fn find_char_from(s: Seq<char>, c: char, i: int) -> Option<int>
    decreases s.len() - i,
{
    if i < 0 || i >= s.len() {
        None
    } else if s[i] == c {
        Some(i)
    } else {
        find_char_from(s, c, i + 1)
    }
}

/// What repeatedly deleting `pat …quote` from `s` leaves: find the first
/// occurrence of `pat`, delete through the next `quote`, and start over;
/// stop when `pat` no longer occurs or its value is unterminated.
pub open spec fn remove_attr_spec(s: Seq<char>, pat: Seq<char>, quote: char) -> Seq<char>
    decreases s.len(),
{
    match find_from(s, pat, 0) {
        None => s,
        Some(start) => match find_char_from(s, quote, start + pat.len()) {
            None => s,
            Some(end) => {
                let shorter = s.subrange(0, start) + s.skip(end + 1);
                if shorter.len() < s.len() {
                    remove_attr_spec(shorter, pat, quote)
                } else {
                    s
                }
            },
        },
    }
}

/// The pattern ` attr=<quote>` whose occurrences are deleted.
pub open spec fn attr_pattern(attr: Seq<char>, quote: char) -> Seq<char> {
    seq![' '] + attr + seq!['='] + seq![quote]
}

/// What stripping an attribute from a document leaves: all double-quoted
/// occurrences deleted, then all single-quoted ones.
pub open spec fn remove_attribute_spec(html: Seq<char>, attr: Seq<char>) -> Seq<char> {
    remove_attr_spec(
        remove_attr_spec(html, attr_pattern(attr, '"'), '"'),
        attr_pattern(attr, '\''),
        '\'',
    )
}

/// Find the first occurrence of `pat` in `s`.
fn find_exec(s: &Vec<char>, pat: &Vec<char>) -> (r: Option<usize>)
    ensures
        match r {
            Some(i) => find_from(s@, pat@, 0) == Some(i as int) && i + pat@.len() <= s@.len(),
            None => find_from(s@, pat@, 0) is None,
        },
{
    if pat.len() > s.len() {
        return None;
    }
    if pat.len() == 0 {
        return Some(0);
    }
    let bound = s.len() - pat.len();
    let mut i: usize = 0;
    while i <= bound
        invariant
            1 <= pat@.len() <= s@.len(),
            s@.len() == s.len(),
            bound == s@.len() - pat@.len(),
            i <= bound + 1,
            find_from(s@, pat@, 0) == find_from(s@, pat@, i as int),
        decreases bound + 1 - i,
    {
        if match_at(s, pat, i) {
            proof {
                assert(s@.subrange(i as int, i + pat@.len()) == pat@);
            }
            return Some(i);
        }
        i = i + 1;
    }
    None
}

/// Find the first occurrence of the character `c` at or after `from`.
fn find_char_exec(s: &Vec<char>, c: char, from: usize) -> (r: Option<usize>)
    ensures
        match r {
            Some(i) => find_char_from(s@, c, from as int) == Some(i as int) && from <= i
                < s@.len(),
            None => find_char_from(s@, c, from as int) is None,
        },
{
    let mut i: usize = from;
    while i < s.len()
        invariant
            from <= i,
            s@.len() == s.len(),
            i <= s@.len() || i == from,
            find_char_from(s@, c, from as int) == find_char_from(s@, c, i as int),
        decreases s@.len() - i,
    {
        if s[i] == c {
            return Some(i);
        }
        i = i + 1;
    }
    None
}

/// The document with the span `start..=end` cut out.
fn splice(s: &Vec<char>, start: usize, end: usize) -> (r: Vec<char>)
    requires
        start <= end < s@.len(),
    ensures
        r@ == s@.subrange(0, start as int) + s@.skip(end + 1),
{
    let mut r: Vec<char> = Vec::new();
    let mut i: usize = 0;
    while i < start
        invariant
            start <= end < s@.len(),
            s@.len() == s.len(),
            i <= start,
            r@ == s@.subrange(0, i as int),
        decreases start - i,
    {
        r.push(s[i]);
        i = i + 1;
        proof {
            assert(r@ =~= s@.subrange(0, i as int));
        }
    }
    let mut j: usize = end + 1;
    while j < s.len()
        invariant
            start <= end < s@.len(),
            s@.len() == s.len(),
            end + 1 <= j <= s@.len(),
            r@ == s@.subrange(0, start as int) + s@.subrange(end + 1, j as int),
        decreases s@.len() - j,
    {
        r.push(s[j]);
        j = j + 1;
        proof {
            assert(r@ =~= s@.subrange(0, start as int) + s@.subrange(end + 1, j as int));
        }
    }
    proof {
        assert(s@.subrange(end + 1, s@.len() as int) =~= s@.skip(end + 1));
    }
    r
}

/// Delete every `pat …quote` occurrence, restarting from the front after
/// each removal.
fn remove_with_quote(s: Vec<char>, pat: &Vec<char>, quote: char) -> (r: Vec<char>)
    ensures
        r@ == remove_attr_spec(s@, pat@, quote),
{
    let mut cur = s;
    loop
        invariant_except_break
            remove_attr_spec(cur@, pat@, quote) == remove_attr_spec(s@, pat@, quote),
        ensures
            cur@ == remove_attr_spec(s@, pat@, quote),
        decreases cur@.len(),
    {
        let found = find_exec(&cur, pat);
        match found {
            None => {
                break ;
            },
            Some(start) => {
                proof {
                    assert(cur@.len() == cur.len());
                }
                let vstart = start + pat.len();
                let hit = find_char_exec(&cur, quote, vstart);
                match hit {
                    None => {
                        break ;
                    },
                    Some(end) => {
                        let next = splice(&cur, start, end);
                        proof {
                            assert(find_from(cur@, pat@, 0) == Some(start as int));
                            assert(start + pat@.len() <= cur@.len());
                            assert(next@.len() < cur@.len());
                        }
                        cur = next;
                    },
                }
            },
        }
    }
    cur
}

/// Strip every occurrence of the attribute `attr` (double- then
/// single-quoted) from an HTML fragment.
pub fn remove_attribute(html: &str, attr: &str) -> (r: String)
    ensures
        r@ == remove_attribute_spec(html@, attr@),
{
    let chars = to_chars(html);
    let a = to_chars(attr);
    let mut dq: Vec<char> = Vec::new();
    dq.push(' ');
    let mut i: usize = 0;
    while i < a.len()
        invariant
            a@.len() == a.len(),
            i <= a@.len(),
            dq@ == seq![' '] + a@.take(i as int),
        decreases a@.len() - i,
    {
        dq.push(a[i]);
        i = i + 1;
        proof {
            assert(dq@ =~= seq![' '] + a@.take(i as int));
        }
    }
    proof {
        assert(a@.take(a@.len() as int) =~= a@);
    }
    let mut sq = dq.clone();
    proof {
        assert(sq@ =~= dq@);
    }
    dq.push('=');
    dq.push('"');
    sq.push('=');
    sq.push('\'');
    proof {
        assert(dq@ =~= attr_pattern(attr@, '"'));
        assert(sq@ =~= attr_pattern(attr@, '\''));
    }
    let pass1 = remove_with_quote(chars, &dq, '"');
    let pass2 = remove_with_quote(pass1, &sq, '\'');
    chars_to_string(&pass2)
}

} // verus!
