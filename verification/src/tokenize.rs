//! The quote-aware tokenizer: one text line becomes an ordered
//! sequence of trimmed fields. A double quote toggles an escape flag
//! and is never copied; a comma separates fields only while the flag
//! is off; every field is trimmed of surrounding whitespace; an empty
//! buffer remaining after the final separator is dropped rather than
//! emitted.

use vstd::prelude::*;
use crate::chars::{is_ws, char_is_whitespace, chars_to_string};

verus! {

/// The longest whitespace-free suffix start: `s` with leading
/// whitespace removed.
pub open spec fn trim_start(s: Seq<char>) -> Seq<char>
    decreases s.len(),
{
    if s.len() > 0 && is_ws(s[0]) {
        trim_start(s.drop_first())
    } else {
        s
    }
}

/// `s` with trailing whitespace removed.
pub open spec fn trim_end(s: Seq<char>) -> Seq<char>
    decreases s.len(),
{
    if s.len() > 0 && is_ws(s.last()) {
        trim_end(s.drop_last())
    } else {
        s
    }
}

/// `s` with surrounding whitespace removed.
pub open spec fn trim(s: Seq<char>) -> Seq<char> {
    trim_end(trim_start(s))
}

/// The fields of the unread part of a line, given the escape flag and
/// the buffer accumulated so far.
pub open spec fn tokenize_from(rest: Seq<char>, escape: bool, current: Seq<char>) -> Seq<Seq<char>>
    decreases rest.len(),
{
    if rest.len() == 0 {
        if current.len() > 0 {
            seq![trim(current)]
        } else {
            Seq::empty()
        }
    } else if rest[0] == '"' {
        tokenize_from(rest.drop_first(), !escape, current)
    } else if rest[0] == ',' && !escape {
        seq![trim(current)] + tokenize_from(rest.drop_first(), escape, Seq::empty())
    } else {
        tokenize_from(rest.drop_first(), escape, current.push(rest[0]))
    }
}

/// The ordered, trimmed fields of one line.
pub open spec fn tokenize(line: Seq<char>) -> Seq<Seq<char>> {
    tokenize_from(line, false, Seq::empty())
}

/// Trims surrounding whitespace from a character vector.
pub fn trim_chars(s: &Vec<char>) -> (r: Vec<char>)
    ensures
        r@ == trim(s@),
{
    let n = s.len();
    proof {
        assert(s@.subrange(0, n as int) =~= s@);
    }
    let mut a: usize = 0;
    while a < n && char_is_whitespace(s[a])
        invariant
            a <= n,
            n == s@.len(),
            trim_start(s@) == trim_start(s@.subrange(a as int, n as int)),
        decreases n - a,
    {
        proof {
            assert(s@.subrange(a as int, n as int).drop_first()
                =~= s@.subrange(a + 1, n as int));
        }
        a = a + 1;
    }
    proof {
        assert(trim_start(s@) =~= s@.subrange(a as int, n as int));
    }
    let mut b: usize = n;
    while b > a && char_is_whitespace(s[b - 1])
        invariant
            a <= b <= n,
            n == s@.len(),
            trim_start(s@) == s@.subrange(a as int, n as int),
            trim_end(s@.subrange(a as int, n as int))
                == trim_end(s@.subrange(a as int, b as int)),
        decreases b,
    {
        proof {
            assert(s@.subrange(a as int, b as int).drop_last()
                =~= s@.subrange(a as int, b - 1));
        }
        b = b - 1;
    }
    proof {
        assert(trim_end(s@.subrange(a as int, b as int)) =~= s@.subrange(a as int, b as int));
    }
    let mut r: Vec<char> = Vec::new();
    let mut i: usize = a;
    while i < b
        invariant
            a <= i <= b <= n,
            n == s@.len(),
            r@ == s@.subrange(a as int, i as int),
        decreases b - i,
    {
        r.push(s[i]);
        proof {
            assert(r@ =~= s@.subrange(a as int, i + 1));
        }
        i = i + 1;
    }
    proof {
        assert(r@ == trim(s@));
    }
    r
}

/// Tokenizes one line into its ordered, trimmed fields.
pub fn tokenize_line(line: &Vec<char>) -> (r: Vec<String>)
    ensures
        r.deep_view() == tokenize(line@),
{
    let n = line.len();
    let mut values: Vec<String> = Vec::new();
    proof {
        assert(line@.subrange(0, n as int) =~= line@);
        assert(values.deep_view() =~= Seq::<Seq<char>>::empty());
    }
    let mut escape: bool = false;
    let mut current: Vec<char> = Vec::new();
    let mut i: usize = 0;
    while i < n
        invariant
            i <= n,
            n == line@.len(),
            tokenize(line@) == values.deep_view()
                + tokenize_from(line@.subrange(i as int, n as int), escape, current@),
        decreases n - i,
    {
        let c = line[i];
        proof {
            assert(line@.subrange(i as int, n as int).drop_first()
                =~= line@.subrange(i + 1, n as int));
            assert(line@.subrange(i as int, n as int)[0] == c);
        }
        if c == '"' {
            escape = !escape;
        } else if c == ',' && !escape {
            let ghost old_values = values.deep_view();
            let t = trim_chars(&current);
            values.push(chars_to_string(&t));
            current = Vec::new();
            proof {
                assert(values.deep_view() =~= old_values + seq![t@]);
            }
        } else {
            current.push(c);
        }
        i = i + 1;
    }
    proof {
        assert(line@.subrange(n as int, n as int) =~= Seq::<char>::empty());
    }
    if current.len() > 0 {
        let t = trim_chars(&current);
        let ghost old_values = values.deep_view();
        values.push(chars_to_string(&t));
        proof {
            assert(values.deep_view() =~= old_values + seq![t@]);
        }
    }
    values
}

} // verus!
