//! Substring and line scanning over character sequences.
//!
//! Every parser in this crate works on `Seq<char>` models of its input, so the
//! searching primitives live here: substring matching, first-occurrence
//! search, splitting into lines and extracting a quoted fragment.

use vstd::prelude::*;
use vstd::string::*;

verus! {

/// The pattern `p` occurs in `s` starting at position `i`.
pub open spec fn is_match_at(s: Seq<char>, p: Seq<char>, i: int) -> bool {
    0 <= i && i + p.len() <= s.len() && s.subrange(i, i + p.len() as int) == p
}

/// The pattern `p` occurs somewhere in `s`.
pub open spec fn contains_seq(s: Seq<char>, p: Seq<char>) -> bool {
    exists|i: int| is_match_at(s, p, i)
}

/// Position of the first occurrence of `p` in `s` at or after `from`,
/// or -1 when there is none.
pub open spec fn find_from(s: Seq<char>, p: Seq<char>, from: int) -> int
    recommends
        0 <= from <= s.len(),
    decreases s.len() - from,
        when 0 <= from <= s.len()
{
    if p.len() == 0 {
        from
    } else if from + p.len() > s.len() {
        -1
    } else if is_match_at(s, p, from) {
        from
    } else {
        find_from(s, p, from + 1)
    }
}

/// Position of the first occurrence of `p` in `s`, or -1 when there is none.
pub open spec fn find_seq(s: Seq<char>, p: Seq<char>) -> int {
    find_from(s, p, 0)
}

pub proof fn lemma_find_from(s: Seq<char>, p: Seq<char>, from: int)
    requires
        0 <= from <= s.len(),
    ensures
        find_from(s, p, from) == -1 || find_from(s, p, from) >= from,
        find_from(s, p, from) == -1 ==> forall|i: int| from <= i ==> !is_match_at(s, p, i),
        find_from(s, p, from) >= 0 ==> from <= find_from(s, p, from)
            && is_match_at(s, p, find_from(s, p, from))
            && forall|i: int| from <= i < find_from(s, p, from) ==> !is_match_at(s, p, i),
    decreases s.len() - from,
{
    if p.len() == 0 {
        assert(s.subrange(from, from) =~= p);
        assert(is_match_at(s, p, from));
    } else if from + p.len() > s.len() {
        assert(forall|i: int| from <= i ==> !(#[trigger] is_match_at(s, p, i)));
    } else if is_match_at(s, p, from) {
    } else {
        lemma_find_from(s, p, from + 1);
    }
}

pub proof fn lemma_find_seq(s: Seq<char>, p: Seq<char>)
    ensures
        find_seq(s, p) == -1 <==> !contains_seq(s, p),
        find_seq(s, p) >= 0 ==> is_match_at(s, p, find_seq(s, p))
            && forall|i: int| 0 <= i < find_seq(s, p) ==> !is_match_at(s, p, i),
{
    lemma_find_from(s, p, 0);
    if find_seq(s, p) == -1 {
        assert forall|i: int| !(#[trigger] is_match_at(s, p, i)) by {
            if 0 <= i {
                assert(!is_match_at(s, p, i));
            }
        }
        assert(!contains_seq(s, p));
    } else {
        assert(is_match_at(s, p, find_seq(s, p)));
        assert(contains_seq(s, p));
    }
}

/// Relies on std's `String::push`: appends exactly one character.
#[verifier::external_body]
pub fn push_char(s: &mut String, c: char)
    ensures
        final(s)@ == old(s)@.push(c),
{
    s.push(c);
}

/// Collect the characters of a string slice into a vector.
pub fn chars_of(s: &str) -> (r: Vec<char>)
    ensures
        r@ == s@,
{
    let n = s.unicode_len();
    let mut r: Vec<char> = Vec::new();
    let mut i: usize = 0;
    while i < n
        invariant
            n == s@.len(),
            i <= n,
            r@ == s@.take(i as int),
        decreases n - i,
    {
        r.push(s.get_char(i));
        proof {
            assert(s@.take(i + 1 as int) =~= s@.take(i as int).push(s@[i as int]));
        }
        i = i + 1;
    }
    proof {
        assert(s@.take(n as int) =~= s@);
    }
    r
}

/// Build a string from a vector of characters.
pub fn string_of(v: &Vec<char>) -> (r: String)
    ensures
        r@ == v@,
{
    let mut r = String::new();
    let mut i: usize = 0;
    while i < v.len()
        invariant
            i <= v@.len(),
            r@ == v@.take(i as int),
        decreases v@.len() - i,
    {
        push_char(&mut r, v[i]);
        proof {
            assert(v@.take(i + 1 as int) =~= v@.take(i as int).push(v@[i as int]));
        }
        i = i + 1;
    }
    proof {
        assert(v@.take(v@.len() as int) =~= v@);
    }
    r
}

/// Copy of `s[from..to]`.
pub fn sub_vec(s: &Vec<char>, from: usize, to: usize) -> (r: Vec<char>)
    requires
        from <= to <= s@.len(),
    ensures
        r@ == s@.subrange(from as int, to as int),
{
    let mut r: Vec<char> = Vec::new();
    let mut j: usize = from;
    while j < to
        invariant
            from <= j <= to <= s@.len(),
            r@ == s@.subrange(from as int, j as int),
        decreases to - j,
    {
        r.push(s[j]);
        proof {
            assert(s@.subrange(from as int, j + 1 as int)
                =~= s@.subrange(from as int, j as int).push(s@[j as int]));
        }
        j = j + 1;
    }
    r
}

/// Whether `p` occurs in `s` at position `i`.
pub fn match_at(s: &Vec<char>, p: &Vec<char>, i: usize) -> (r: bool)
    requires
        i + p@.len() <= s@.len(),
    ensures
        r == is_match_at(s@, p@, i as int),
{
    let n = s.len();
    let mut j: usize = 0;
    while j < p.len()
        invariant
            n == s@.len(),
            i + p@.len() <= s@.len(),
            j <= p@.len(),
            forall|k: int| 0 <= k < j ==> s@[i + k] == p@[k],
        decreases p@.len() - j,
    {
        if s[i + j] != p[j] {
            proof {
                assert(s@.subrange(i as int, i + p@.len() as int)[j as int] != p@[j as int]);
            }
            return false;
        }
        j = j + 1;
    }
    proof {
        assert(s@.subrange(i as int, i + p@.len() as int) =~= p@);
    }
    true
}

/// First occurrence of `p` in `s`, as `find_seq` gives it.
pub fn find_in(s: &Vec<char>, p: &Vec<char>) -> (r: Option<usize>)
    ensures
        match r {
            Some(i) => find_seq(s@, p@) == i as int,
            None => find_seq(s@, p@) == -1,
        },
{
    if p.len() == 0 {
        proof {
            assert(s@.subrange(0, 0) =~= p@);
        }
        return Some(0);
    }
    if p.len() > s.len() {
        return None;
    }
    let n = s.len();
    let mut i: usize = 0;
    let bound = n - p.len();
    while i <= bound
        invariant
            n == s@.len(),
            0 < p@.len() <= s@.len(),
            bound == s@.len() - p@.len(),
            i <= bound + 1,
            find_from(s@, p@, 0) == find_from(s@, p@, i as int),
        decreases bound + 1 - i,
    {
        if match_at(s, p, i) {
            return Some(i);
        }
        proof {
            assert(find_from(s@, p@, i as int) == find_from(s@, p@, i + 1 as int));
        }
        i = i + 1;
    }
    None
}

/// Whether `p` occurs anywhere in `s`.
pub fn contains_in(s: &Vec<char>, p: &Vec<char>) -> (r: bool)
    ensures
        r == contains_seq(s@, p@),
{
    proof {
        lemma_find_seq(s@, p@);
    }
    match find_in(s, p) {
        Some(_) => true,
        None => false,
    }
}

/// Whether two string slices hold the same characters.
pub fn str_eq(a: &str, b: &str) -> (r: bool)
    ensures
        r == (a@ == b@),
{
    let va = chars_of(a);
    let vb = chars_of(b);
    if va.len() != vb.len() {
        return false;
    }
    let mut i: usize = 0;
    while i < va.len()
        invariant
            va@ == a@,
            vb@ == b@,
            va@.len() == vb@.len(),
            i <= va@.len(),
            forall|k: int| 0 <= k < i ==> va@[k] == vb@[k],
        decreases va@.len() - i,
    {
        if va[i] != vb[i] {
            return false;
        }
        i = i + 1;
    }
    proof {
        assert(a@ =~= b@);
    }
    true
}

/// A line terminated by a newline loses a carriage return directly before
/// it, so carriage-return/newline endings read like bare newlines.
pub open spec fn strip_cr(l: Seq<char>) -> Seq<char> {
    if l.len() > 0 && l.last() == '\r' {
        l.drop_last()
    } else {
        l
    }
}

/// The segments of `s` between newline characters, in order, each terminated
/// segment losing a carriage return directly before its newline. A trailing
/// newline yields a final empty segment.
pub open spec fn lines_of(s: Seq<char>) -> Seq<Seq<char>>
    decreases s.len(),
        via lines_of_decreases
{
    let i = find_seq(s, "\n"@);
    if i < 0 {
        seq![s]
    } else {
        seq![strip_cr(s.subrange(0, i))] + lines_of(s.subrange(i + 1, s.len() as int))
    }
}

#[via_fn]
proof fn lines_of_decreases(s: Seq<char>) {
    reveal_strlit("\n");
    lemma_find_seq(s, "\n"@);
}

/// Split into lines, as `lines_of` describes them.
pub fn split_lines(s: &Vec<char>) -> (r: Vec<Vec<char>>)
    ensures
        r.deep_view() == lines_of(s@),
    decreases s@.len(),
{
    let nl = chars_of("\n");
    proof {
        reveal_strlit("\n");
        lemma_find_seq(s@, "\n"@);
    }
    match find_in(s, &nl) {
        None => {
            let line = sub_vec(s, 0, s.len());
            let mut r: Vec<Vec<char>> = Vec::new();
            r.push(line);
            proof {
                assert(s@.subrange(0, s@.len() as int) =~= s@);
                assert(r.deep_view() =~~= lines_of(s@));
            }
            r
        },
        Some(i) => {
            let n = s.len();
            proof {
                assert(is_match_at(s@, "\n"@, i as int));
            }
            let mut head = sub_vec(s, 0, i);
            if head.len() > 0 && head[head.len() - 1] == '\r' {
                head.pop();
            }
            proof {
                assert(head@ =~= strip_cr(s@.subrange(0, i as int)));
            }
            let tail = sub_vec(s, i + 1, n);
            let mut rest = split_lines(&tail);
            rest.insert(0, head);
            proof {
                assert(rest.deep_view() =~~= lines_of(s@));
            }
            rest
        },
    }
}

/// The text between the first quote character and the following one; the rest
/// of the segment when no second quote exists; nothing without any quote.
pub open spec fn quoted_of(l: Seq<char>) -> Option<Seq<char>> {
    let i = find_seq(l, "\""@);
    if i < 0 {
        None
    } else {
        let rest = l.subrange(i + 1, l.len() as int);
        let j = find_seq(rest, "\""@);
        if j < 0 {
            Some(rest)
        } else {
            Some(rest.subrange(0, j))
        }
    }
}

/// Extract the first quoted fragment, as `quoted_of` describes it.
pub fn quoted_in(l: &Vec<char>) -> (r: Option<Vec<char>>)
    ensures
        match r {
            Some(q) => quoted_of(l@) == Some(q@),
            None => quoted_of(l@) is None,
        },
{
    let quote = chars_of("\"");
    proof {
        reveal_strlit("\"");
        lemma_find_seq(l@, "\""@);
    }
    match find_in(l, &quote) {
        None => None,
        Some(i) => {
            let n = l.len();
            proof {
                assert(is_match_at(l@, "\""@, i as int));
            }
            let rest = sub_vec(l, i + 1, n);
            proof {
                lemma_find_seq(rest@, "\""@);
            }
            match find_in(&rest, &quote) {
                None => Some(rest),
                Some(j) => Some(sub_vec(&rest, 0, j)),
            }
        },
    }
}

/// Index of the first line at or after `from` that contains `p`,
/// or -1 when there is none.
pub open spec fn find_line_from(ls: Seq<Seq<char>>, p: Seq<char>, from: int) -> int
    recommends
        0 <= from <= ls.len(),
    decreases ls.len() - from,
        when 0 <= from <= ls.len()
{
    if from >= ls.len() {
        -1
    } else if contains_seq(ls[from], p) {
        from
    } else {
        find_line_from(ls, p, from + 1)
    }
}

/// Index of the first line that contains `p`, or -1 when there is none.
pub open spec fn find_line(ls: Seq<Seq<char>>, p: Seq<char>) -> int {
    find_line_from(ls, p, 0)
}

/// First line containing `p`, as `find_line` gives it.
pub fn find_line_in(ls: &Vec<Vec<char>>, p: &Vec<char>) -> (r: Option<usize>)
    ensures
        match r {
            Some(i) => i < ls@.len() && find_line(ls.deep_view(), p@) == i as int,
            None => find_line(ls.deep_view(), p@) == -1,
        },
{
    let mut i: usize = 0;
    while i < ls.len()
        invariant
            i <= ls@.len(),
            find_line_from(ls.deep_view(), p@, 0) == find_line_from(ls.deep_view(), p@, i as int),
        decreases ls@.len() - i,
    {
        proof {
            assert(ls.deep_view()[i as int] == ls@[i as int]@);
        }
        if contains_in(&ls[i], p) {
            return Some(i);
        }
        proof {
            assert(find_line_from(ls.deep_view(), p@, i as int)
                == find_line_from(ls.deep_view(), p@, i + 1 as int));
        }
        i = i + 1;
    }
    None
}

} // verus!
