//! Text operations on names: splitting at the first dot, joining words,
//! and picking the name line out of a file.

use vstd::prelude::*;

verus! {

/// The position of the first `x` in `s`, or `s.len()` when there is none.
pub open spec fn index_of<A>(s: Seq<A>, x: A) -> int
    decreases s.len(),
{
    if s.len() == 0 {
        0
    } else if s[0] == x {
        0
    } else {
        1 + index_of(s.drop_first(), x)
    }
}

/// `index_of` is the one position before which `x` does not occur and at
/// which it does (unless it is the end).
pub proof fn lemma_index_of<A>(s: Seq<A>, x: A, k: int)
    requires
        0 <= k <= s.len(),
        forall|j: int| 0 <= j < k ==> s[j] != x,
        k < s.len() ==> s[k] == x,
    ensures
        index_of(s, x) == k,
    decreases k,
{
    if k > 0 {
        lemma_index_of(s.drop_first(), x, k - 1);
    }
}

/// `index_of` lies within the sequence, and nothing before it is `x`.
pub proof fn lemma_index_of_bounds<A>(s: Seq<A>, x: A)
    ensures
        0 <= index_of(s, x) <= s.len(),
        index_of(s, x) < s.len() ==> s[index_of(s, x)] == x,
        forall|j: int| 0 <= j < index_of(s, x) ==> s[j] != x,
    decreases s.len(),
{
    if s.len() > 0 && s[0] != x {
        lemma_index_of_bounds(s.drop_first(), x);
        assert forall|j: int| 0 <= j < index_of(s, x) implies s[j] != x by {
            if j > 0 {
                assert(s[j] == s.drop_first()[j - 1]);
            }
        }
    }
}

/// The text before the first dot (all of it when there is no dot).
pub open spec fn before_first_dot(s: Seq<char>) -> Seq<char> {
    s.take(index_of(s, '.'))
}

/// The text after the first dot, when there is one.
pub open spec fn after_first_dot(s: Seq<char>) -> Option<Seq<char>> {
    if index_of(s, '.') < s.len() {
        Some(s.skip(index_of(s, '.') + 1))
    } else {
        None
    }
}

/// Words separated by single spaces.
pub open spec fn joined(ws: Seq<Seq<char>>) -> Seq<char>
    decreases ws.len(),
{
    if ws.len() == 0 {
        Seq::empty()
    } else if ws.len() == 1 {
        ws[0]
    } else {
        joined(ws.drop_last()) + seq![' '] + ws.last()
    }
}

/// The text of each string.
pub open spec fn views(v: Seq<String>) -> Seq<Seq<char>> {
    v.map_values(|s: String| s@)
}

/// A line of output: the text and a newline.
pub open spec fn line(s: Seq<char>) -> Seq<char> {
    s + seq!['\n']
}

/// The first line of `s`, without its line ending (`\n` or `\r\n`).
pub open spec fn first_line(s: Seq<char>) -> Seq<char> {
    let k = index_of(s, '\n');
    if k < s.len() && k > 0 && s[k - 1] == '\r' {
        s.take(k - 1)
    } else {
        s.take(k)
    }
}

/// A line that can hold a name: neither empty nor a `#` comment.
pub open spec fn is_name_line(l: Seq<char>) -> bool {
    l.len() > 0 && l[0] != '#'
}

/// The first line of `s` that can hold a name, or the empty text when no
/// line can.
pub open spec fn name_line(s: Seq<char>) -> Seq<char>
    decreases s.len(),
    via name_line_decreases
{
    if s.len() == 0 {
        Seq::empty()
    } else if is_name_line(first_line(s)) {
        first_line(s)
    } else if index_of(s, '\n') < s.len() {
        name_line(s.skip(index_of(s, '\n') + 1))
    } else {
        Seq::empty()
    }
}

#[via_fn]
proof fn name_line_decreases(s: Seq<char>) {
    lemma_index_of_bounds(s, '\n');
}

/// The characters of `s`, in order.
pub fn chars_of(s: &str) -> (r: Vec<char>)
    ensures
        r@ == s@,
{
    let mut r: Vec<char> = Vec::new();
    for c in it: s.chars()
        invariant
            r@ == it.seq().take(it.index() as int),
    {
        r.push(c);
    }
    r
}

/// The first position at or after `from` that holds `x`, or the length.
fn position_from(cs: &Vec<char>, from: usize, x: char) -> (r: usize)
    requires
        from <= cs.len(),
    ensures
        r - from == index_of(cs@.skip(from as int), x),
        from <= r <= cs.len(),
{
    let mut i = from;
    while i < cs.len()
        invariant
            from <= i <= cs.len(),
            forall|j: int| from <= j < i ==> cs@[j] != x,
        ensures
            from <= i <= cs.len(),
            forall|j: int| from <= j < i ==> cs@[j] != x,
            i < cs.len() ==> cs@[i as int] == x,
        decreases cs.len() - i,
    {
        if cs[i] == x {
            break;
        }
        i = i + 1;
    }
    proof {
        lemma_index_of(cs@.skip(from as int), x, i - from);
    }
    i
}

/// The text of `s` before its first dot.
pub fn before_dot(s: &str) -> (r: String)
    ensures
        r@ == before_first_dot(s@),
{
    let cs = chars_of(s);
    let k = position_from(&cs, 0, '.');
    assert(cs@.skip(0) == cs@);
    s.substring_char(0, k).to_owned()
}

/// The text of `s` after its first dot, if it has one.
pub fn after_dot(s: &str) -> (r: Option<String>)
    ensures
        r matches Some(t) ==> after_first_dot(s@) == Some(t@),
        r is None ==> after_first_dot(s@) is None,
{
    let cs = chars_of(s);
    let k = position_from(&cs, 0, '.');
    assert(cs@.skip(0) == cs@);
    if k < cs.len() {
        Some(s.substring_char(k + 1, cs.len()).to_owned())
    } else {
        None
    }
}

/// `s` followed by a newline.
pub fn with_newline(s: &str) -> (r: String)
    ensures
        r@ == line(s@),
{
    let mut r = s.to_owned();
    r.append("\n");
    proof {
        reveal_strlit("\n");
    }
    r
}

/// The words separated by single spaces.
pub fn join_words(ws: &Vec<String>) -> (r: String)
    ensures
        r@ == joined(views(ws@)),
{
    let mut r = String::new();
    let mut i: usize = 0;
    proof {
        reveal_strlit(" ");
    }
    while i < ws.len()
        invariant
            0 <= i <= ws.len(),
            r@ == joined(views(ws@).take(i as int)),
            " "@ == seq![' '],
        decreases ws.len() - i,
    {
        let ghost before = r@;
        if i > 0 {
            r.append(" ");
        }
        r.append(ws[i].as_str());
        proof {
            let vs = views(ws@);
            assert(vs.take(i + 1).drop_last() =~= vs.take(i as int));
            assert(vs.take(i + 1).last() == ws@[i as int]@);
            if i == 0 {
                assert(vs.take(1).len() == 1);
                assert(r@ =~= vs.take(1)[0]);
            } else {
                assert(r@ =~= before + seq![' '] + ws@[i as int]@);
            }
        }
        i = i + 1;
    }
    assert(views(ws@).take(ws.len() as int) =~= views(ws@));
    r
}

/// The first line of `contents` that can hold a name, or the empty string.
pub fn first_name_line(contents: &str) -> (r: String)
    ensures
        r@ == name_line(contents@),
{
    let cs = chars_of(contents);
    let n = cs.len();
    let mut i: usize = 0;
    assert(cs@.skip(0) =~= cs@);
    while i < n
        invariant
            cs@ == contents@,
            n == cs.len(),
            i <= n,
            name_line(cs@) == name_line(cs@.skip(i as int)),
        decreases n - i,
    {
        let k = position_from(&cs, i, '\n');
        let ghost rest = cs@.skip(i as int);
        let end = if k < n && k > i && cs[k - 1] == '\r' {
            k - 1
        } else {
            k
        };
        proof {
            assert(rest.len() > 0);
            assert(first_line(rest) =~= cs@.subrange(i as int, end as int));
        }
        if end > i && cs[i] != '#' {
            return contents.substring_char(i, end).to_owned();
        }
        if k < n {
            assert(rest.skip(k - i + 1) =~= cs@.skip(k + 1));
            i = k + 1;
        } else {
            return String::new();
        }
    }
    String::new()
}

} // verus!
