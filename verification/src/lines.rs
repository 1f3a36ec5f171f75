//! Splitting text into lines the way the ingestion pipeline reads a
//! file (line feeds separate lines, a carriage return before a line
//! feed is dropped, a final empty line is not emitted), plus plain
//! single-character splitting and joining used by the cache codec.

use vstd::prelude::*;

verus! {

/// `s` without a single trailing carriage return.
pub open spec fn strip_cr(s: Seq<char>) -> Seq<char> {
    if s.len() > 0 && s.last() == '\r' {
        s.drop_last()
    } else {
        s
    }
}

/// The lines of the unread text, given the buffer accumulated so far.
pub open spec fn lines_from(rest: Seq<char>, current: Seq<char>) -> Seq<Seq<char>>
    decreases rest.len(),
{
    if rest.len() == 0 {
        if current.len() > 0 {
            seq![current]
        } else {
            Seq::empty()
        }
    } else if rest[0] == '\n' {
        seq![strip_cr(current)] + lines_from(rest.drop_first(), Seq::empty())
    } else {
        lines_from(rest.drop_first(), current.push(rest[0]))
    }
}

/// The lines of a text: line-feed separated, a carriage return before
/// a line feed dropped, no final empty line.
pub open spec fn spec_lines(text: Seq<char>) -> Seq<Seq<char>> {
    lines_from(text, Seq::empty())
}

/// The segments of the unread text under plain splitting at `sep`,
/// given the buffer accumulated so far. Plain splitting always emits
/// the final segment, even when it is empty.
pub open spec fn split_from(rest: Seq<char>, sep: char, current: Seq<char>) -> Seq<Seq<char>>
    decreases rest.len(),
{
    if rest.len() == 0 {
        seq![current]
    } else if rest[0] == sep {
        seq![current] + split_from(rest.drop_first(), sep, Seq::empty())
    } else {
        split_from(rest.drop_first(), sep, current.push(rest[0]))
    }
}

/// The segments of `text` under plain splitting at `sep`.
pub open spec fn split_on(text: Seq<char>, sep: char) -> Seq<Seq<char>> {
    split_from(text, sep, Seq::empty())
}

/// The parts joined with a single `sep` between consecutive parts.
pub open spec fn join_with(parts: Seq<Seq<char>>, sep: char) -> Seq<char>
    decreases parts.len(),
{
    if parts.len() == 0 {
        Seq::empty()
    } else if parts.len() == 1 {
        parts[0]
    } else {
        parts[0] + seq![sep] + join_with(parts.drop_first(), sep)
    }
}

/// Splits a text into its lines.
pub fn split_lines(text: &Vec<char>) -> (r: Vec<Vec<char>>)
    ensures
        r.deep_view() == spec_lines(text@),
{
    let n = text.len();
    let mut r: Vec<Vec<char>> = Vec::new();
    let mut current: Vec<char> = Vec::new();
    proof {
        assert(text@.subrange(0, n as int) =~= text@);
        assert(r.deep_view() =~= Seq::<Seq<char>>::empty());
    }
    let mut i: usize = 0;
    while i < n
        invariant
            i <= n,
            n == text@.len(),
            spec_lines(text@) == r.deep_view()
                + lines_from(text@.subrange(i as int, n as int), current@),
        decreases n - i,
    {
        let c = text[i];
        proof {
            assert(text@.subrange(i as int, n as int).drop_first()
                =~= text@.subrange(i + 1, n as int));
            assert(text@.subrange(i as int, n as int)[0] == c);
        }
        if c == '\n' {
            if current.len() > 0 && current[current.len() - 1] == '\r' {
                current.pop();
            }
            let ghost old_dv = r.deep_view();
            let ghost stripped = current@;
            r.push(current);
            current = Vec::new();
            proof {
                assert(r.deep_view() =~~= old_dv + seq![stripped]);
            }
        } else {
            current.push(c);
        }
        i = i + 1;
    }
    proof {
        assert(text@.subrange(n as int, n as int) =~= Seq::<char>::empty());
    }
    if current.len() > 0 {
        let ghost old_dv = r.deep_view();
        let ghost last = current@;
        r.push(current);
        proof {
            assert(r.deep_view() =~~= old_dv + seq![last]);
        }
    }
    r
}

/// Splits a text at every occurrence of `sep`.
pub fn split_chars(text: &Vec<char>, sep: char) -> (r: Vec<Vec<char>>)
    ensures
        r.deep_view() == split_on(text@, sep),
{
    let n = text.len();
    let mut r: Vec<Vec<char>> = Vec::new();
    let mut current: Vec<char> = Vec::new();
    proof {
        assert(text@.subrange(0, n as int) =~= text@);
        assert(r.deep_view() =~= Seq::<Seq<char>>::empty());
    }
    let mut i: usize = 0;
    while i < n
        invariant
            i <= n,
            n == text@.len(),
            split_on(text@, sep) == r.deep_view()
                + split_from(text@.subrange(i as int, n as int), sep, current@),
        decreases n - i,
    {
        let c = text[i];
        proof {
            assert(text@.subrange(i as int, n as int).drop_first()
                =~= text@.subrange(i + 1, n as int));
            assert(text@.subrange(i as int, n as int)[0] == c);
        }
        if c == sep {
            let ghost old_dv = r.deep_view();
            let ghost seg = current@;
            r.push(current);
            current = Vec::new();
            proof {
                assert(r.deep_view() =~~= old_dv + seq![seg]);
            }
        } else {
            current.push(c);
        }
        i = i + 1;
    }
    proof {
        assert(text@.subrange(n as int, n as int) =~= Seq::<char>::empty());
    }
    let ghost old_dv = r.deep_view();
    let ghost seg = current@;
    r.push(current);
    proof {
        assert(r.deep_view() =~~= old_dv + seq![seg]);
    }
    r
}

/// `join_with` grows by one separator and one part when a part is
/// appended to a non-empty part list.
pub proof fn lemma_join_push(parts: Seq<Seq<char>>, x: Seq<char>, sep: char)
    ensures
        parts.len() == 0 ==> join_with(parts.push(x), sep) == x,
        parts.len() > 0 ==> join_with(parts.push(x), sep)
            == join_with(parts, sep) + seq![sep] + x,
    decreases parts.len(),
{
    if parts.len() == 0 {
        assert(parts.push(x)[0] == x);
        assert(join_with(parts.push(x), sep) == x);
    } else if parts.len() == 1 {
        assert(parts.push(x).drop_first() =~= seq![x]);
        assert(parts.push(x)[0] == parts[0]);
        assert(join_with(seq![x], sep) == x);
        assert(join_with(parts.push(x), sep) == parts[0] + seq![sep] + x);
    } else {
        lemma_join_push(parts.drop_first(), x, sep);
        assert(parts.push(x).drop_first() =~= parts.drop_first().push(x));
    }
}

/// Joins parts with a single `sep` between consecutive parts.
pub fn join_chars(parts: &Vec<Vec<char>>, sep: char) -> (r: Vec<char>)
    ensures
        r@ == join_with(parts.deep_view(), sep),
{
    let n = parts.len();
    let mut r: Vec<char> = Vec::new();
    let mut i: usize = 0;
    while i < n
        invariant
            i <= n,
            n == parts@.len(),
            r@ == join_with(parts.deep_view().subrange(0, i as int), sep),
        decreases n - i,
    {
        if i > 0 {
            r.push(sep);
        }
        let mut j: usize = 0;
        let ghost before = r@;
        while j < parts[i].len()
            invariant
                i < n,
                n == parts@.len(),
                j <= parts@[i as int]@.len(),
                r@ == before + parts@[i as int]@.subrange(0, j as int),
            decreases parts@[i as int]@.len() - j,
        {
            let c = parts[i][j];
            r.push(c);
            proof {
                assert(before + parts@[i as int]@.subrange(0, j + 1)
                    =~= (before + parts@[i as int]@.subrange(0, j as int)).push(c));
            }
            j = j + 1;
        }
        proof {
            lemma_join_push(parts.deep_view().subrange(0, i as int), parts@[i as int]@, sep);
            assert(parts.deep_view().subrange(0, i as int).push(parts@[i as int]@)
                =~~= parts.deep_view().subrange(0, i + 1));
            assert(parts@[i as int]@.subrange(0, parts@[i as int]@.len() as int)
                =~= parts@[i as int]@);
        }
        i = i + 1;
    }
    proof {
        assert(parts.deep_view().subrange(0, n as int) =~= parts.deep_view());
    }
    r
}

/// Plain splitting consumes a separator-free prefix into the buffer.
proof fn lemma_split_from_skip(first: Seq<char>, rest: Seq<char>, sep: char, current: Seq<char>)
    requires
        !first.contains(sep),
    ensures
        split_from(first + rest, sep, current) == split_from(rest, sep, current + first),
    decreases first.len(),
{
    if first.len() == 0 {
        assert(first + rest =~= rest);
        assert(current + first =~= current);
    } else {
        assert(first[0] != sep);
        assert((first + rest)[0] == first[0]);
        assert((first + rest).drop_first() =~= first.drop_first() + rest);
        assert(!first.drop_first().contains(sep)) by {
            assert(forall|k: int| 0 <= k < first.drop_first().len()
                ==> first.drop_first()[k] == first[k + 1]);
        }
        lemma_split_from_skip(first.drop_first(), rest, sep, current.push(first[0]));
        assert(current.push(first[0]) + first.drop_first() =~= current + first);
    }
}

/// Splitting a joined text at the separator recovers the parts, when
/// no part contains the separator.
pub proof fn lemma_split_join(parts: Seq<Seq<char>>, sep: char)
    requires
        parts.len() > 0,
        forall|i: int| 0 <= i < parts.len() ==> !(#[trigger] parts[i]).contains(sep),
    ensures
        split_on(join_with(parts, sep), sep) == parts,
    decreases parts.len(),
{
    if parts.len() == 1 {
        lemma_split_from_skip(parts[0], Seq::empty(), sep, Seq::empty());
        assert(parts[0] + Seq::<char>::empty() =~= parts[0]);
        assert(Seq::<char>::empty() + parts[0] =~= parts[0]);
        assert(split_on(join_with(parts, sep), sep) =~= parts);
    } else {
        let tail = join_with(parts.drop_first(), sep);
        assert(join_with(parts, sep) == parts[0] + seq![sep] + tail);
        lemma_split_from_skip(parts[0], seq![sep] + tail, sep, Seq::empty());
        assert(parts[0] + seq![sep] + tail =~= parts[0] + (seq![sep] + tail));
        assert(Seq::<char>::empty() + parts[0] =~= parts[0]);
        assert((seq![sep] + tail)[0] == sep);
        assert((seq![sep] + tail).drop_first() =~= tail);
        assert(forall|i: int| 0 <= i < parts.drop_first().len()
            ==> parts.drop_first()[i] == parts[i + 1]);
        lemma_split_join(parts.drop_first(), sep);
        assert(split_on(join_with(parts, sep), sep) =~= parts);
    }
}

/// Lines-splitting consumes a line-feed-free prefix into the buffer.
proof fn lemma_lines_from_skip(first: Seq<char>, rest: Seq<char>, current: Seq<char>)
    requires
        !first.contains('\n'),
    ensures
        lines_from(first + rest, current) == lines_from(rest, current + first),
    decreases first.len(),
{
    if first.len() == 0 {
        assert(first + rest =~= rest);
        assert(current + first =~= current);
    } else {
        assert(first[0] != '\n');
        assert((first + rest)[0] == first[0]);
        assert((first + rest).drop_first() =~= first.drop_first() + rest);
        assert(!first.drop_first().contains('\n')) by {
            assert(forall|k: int| 0 <= k < first.drop_first().len()
                ==> first.drop_first()[k] == first[k + 1]);
        }
        lemma_lines_from_skip(first.drop_first(), rest, current.push(first[0]));
        assert(current.push(first[0]) + first.drop_first() =~= current + first);
    }
}

/// Splitting joined lines at the line feed recovers the lines, when
/// every line is non-empty, free of line feeds, and does not end in a
/// carriage return.
pub proof fn lemma_lines_join(parts: Seq<Seq<char>>)
    requires
        parts.len() > 0,
        forall|i: int| 0 <= i < parts.len() ==> {
            &&& !(#[trigger] parts[i]).contains('\n')
            &&& parts[i].len() > 0
            &&& parts[i].last() != '\r'
        },
    ensures
        spec_lines(join_with(parts, '\n')) == parts,
    decreases parts.len(),
{
    if parts.len() == 1 {
        lemma_lines_from_skip(parts[0], Seq::empty(), Seq::empty());
        assert(parts[0] + Seq::<char>::empty() =~= parts[0]);
        assert(Seq::<char>::empty() + parts[0] =~= parts[0]);
        assert(spec_lines(join_with(parts, '\n')) =~= parts);
    } else {
        let tail = join_with(parts.drop_first(), '\n');
        assert(join_with(parts, '\n') == parts[0] + seq!['\n'] + tail);
        lemma_lines_from_skip(parts[0], seq!['\n'] + tail, Seq::empty());
        assert(parts[0] + seq!['\n'] + tail =~= parts[0] + (seq!['\n'] + tail));
        assert(Seq::<char>::empty() + parts[0] =~= parts[0]);
        assert((seq!['\n'] + tail)[0] == '\n');
        assert((seq!['\n'] + tail).drop_first() =~= tail);
        assert(strip_cr(parts[0]) == parts[0]);
        assert(forall|i: int| 0 <= i < parts.drop_first().len()
            ==> parts.drop_first()[i] == parts[i + 1]);
        lemma_lines_join(parts.drop_first());
        assert(spec_lines(join_with(parts, '\n')) =~= parts);
    }
}


/// A token safe to join with spaces and line feeds: non-empty, and
/// free of space, line feed and carriage return characters.
pub open spec fn plain_token(s: Seq<char>) -> bool {
    s.len() > 0 && forall|i: int| 0 <= i < s.len()
        ==> (#[trigger] s[i]) != ' ' && s[i] != '\n' && s[i] != '\r'
}

} // verus!
