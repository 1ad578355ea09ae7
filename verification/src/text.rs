//! Character sequences: the primitives that every rule of the table is
//! written with. A text is held as a `Vec<char>` and stands for the
//! `Seq<char>` that is its view; a literal is a `&str` with the same view.

use vstd::prelude::*;
use vstd::std_specs::iter::IteratorSpec;

verus! {

/// `String::push` adds the one character at the end and leaves the rest as it was.
pub assume_specification[ String::push ](s: &mut String, ch: char)
    ensures
        final(s)@ == old(s)@.push(ch),
;

/// The characters of `s`, in order.
pub fn chars_of(s: &str) -> (v: Vec<char>)
    ensures
        v@ == s@,
{
    let mut v: Vec<char> = Vec::new();
    let mut it = s.chars();
    loop
        invariant
            v@ + it.remaining() == s@,
            it.decrease() is Some,
        ensures
            v@ == s@,
        decreases it.decrease()->0,
    {
        match it.next() {
            Some(c) => {
                v.push(c);
            },
            None => {
                break ;
            },
        }
    }
    v
}

/// The string made of the characters of `v`, in order.
pub fn string_of(v: &[char]) -> (s: String)
    ensures
        s@ == v@,
{
    let mut s = String::new();
    let mut i: usize = 0;
    while i < v.len()
        invariant
            i <= v.len(),
            s@ == v@.take(i as int),
        decreases v.len() - i,
    {
        s.push(v[i]);
        i += 1;
    }
    s
}

/// A copy of `s`.
pub fn copy_of(s: &[char]) -> (v: Vec<char>)
    ensures
        v@ == s@,
{
    vstd::slice::slice_to_vec(s)
}

/// Adds the characters of `s` at the end of `v`.
pub fn append(v: &mut Vec<char>, s: &[char])
    ensures
        final(v)@ == old(v)@ + s@,
{
    let mut i: usize = 0;
    while i < s.len()
        invariant
            i <= s.len(),
            v@ == old(v)@ + s@.take(i as int),
        decreases s.len() - i,
    {
        v.push(s[i]);
        i += 1;
    }
}

/// Adds the characters of the literal `p` at the end of `v`.
pub fn append_str(v: &mut Vec<char>, p: &str)
    ensures
        final(v)@ == old(v)@ + p@,
{
    let mut it = p.chars();
    loop
        invariant
            v@ + it.remaining() == old(v)@ + p@,
            it.decrease() is Some,
        ensures
            v@ == old(v)@ + p@,
        decreases it.decrease()->0,
    {
        match it.next() {
            Some(c) => {
                v.push(c);
            },
            None => {
                break ;
            },
        }
    }
}

/// What is left of `s` after its first `n` characters.
pub fn suffix_of(s: &[char], n: usize) -> (v: Vec<char>)
    requires
        n <= s@.len(),
    ensures
        v@ == s@.skip(n as int),
{
    vstd::slice::slice_to_vec(vstd::slice::slice_subrange(s, n, s.len()))
}

/// The first `n` characters of `s`.
pub fn prefix_of(s: &[char], n: usize) -> (v: Vec<char>)
    requires
        n <= s@.len(),
    ensures
        v@ == s@.take(n as int),
{
    vstd::slice::slice_to_vec(vstd::slice::slice_subrange(s, 0, n))
}

/// Whether `s` begins with the literal `p`.
pub fn starts_with(s: &[char], p: &str) -> (r: bool)
    ensures
        r == p@.is_prefix_of(s@),
{
    let mut it = p.chars();
    let mut i: usize = 0;
    loop
        invariant
            i <= s.len(),
            s@.take(i as int) + it.remaining() == p@,
            it.decrease() is Some,
        decreases it.decrease()->0,
    {
        match it.next() {
            None => {
                assert(p@ == s@.take(i as int));
                return true;
            },
            Some(c) => {
                if i >= s.len() {
                    assert(p@.len() > s@.len());
                    return false;
                }
                if s[i] != c {
                    assert(p@[i as int] == c);
                    return false;
                }
                assert(s@.take(i as int).push(c) == s@.take(i + 1));
                i += 1;
            },
        }
    }
}

/// Whether `s` is the literal `p`.
pub fn equals(s: &[char], p: &str) -> (r: bool)
    ensures
        r == (s@ == p@),
{
    let mut it = p.chars();
    let mut i: usize = 0;
    loop
        invariant
            i <= s.len(),
            s@.take(i as int) + it.remaining() == p@,
            it.decrease() is Some,
        decreases it.decrease()->0,
    {
        match it.next() {
            None => {
                assert(p@ == s@.take(i as int));
                assert(i == s.len() ==> s@.take(i as int) == s@);
                return i == s.len();
            },
            Some(c) => {
                if i >= s.len() {
                    assert(p@.len() > s@.len());
                    return false;
                }
                if s[i] != c {
                    assert(p@[i as int] == c);
                    return false;
                }
                assert(s@.take(i as int).push(c) == s@.take(i + 1));
                i += 1;
            },
        }
    }
}

/// Whether `p` occurs in `s` as a run of adjacent characters.
pub open spec fn occurs_in(p: Seq<char>, s: Seq<char>) -> bool {
    exists|i: int| 0 <= i <= s.len() - p.len() && #[trigger] s.subrange(i, i + p.len()) == p
}

/// Whether `a` stands directly before `b` somewhere in `s`.
pub open spec fn adjacent(s: Seq<char>, a: char, b: char) -> bool
    decreases s.len(),
{
    s.len() >= 2 && ((s[0] == a && s[1] == b) || adjacent(s.skip(1), a, b))
}

/// Two characters that follow each other at `i` are adjacent.
pub proof fn lemma_adjacent(s: Seq<char>, a: char, b: char, i: int)
    requires
        0 <= i,
        i + 1 < s.len(),
        s[i] == a,
        s[i + 1] == b,
    ensures
        adjacent(s, a, b),
    decreases i,
{
    if i > 0 {
        lemma_adjacent(s.skip(1), a, b, i - 1);
    }
}

/// What occurs in a part of `s` occurs in `s`.
pub proof fn lemma_occurs_in_part(p: Seq<char>, s: Seq<char>, from: int, to: int)
    requires
        0 <= from <= to <= s.len(),
        occurs_in(p, s.subrange(from, to)),
    ensures
        occurs_in(p, s),
{
    let part = s.subrange(from, to);
    let k = choose|k: int| 0 <= k <= part.len() - p.len() && #[trigger] part.subrange(
        k,
        k + p.len(),
    ) == p;
    let at = from + k;
    assert(s.subrange(at, at + p.len()) =~= part.subrange(k, k + p.len()));
}

/// What occurs in `new + rest` occurs in `rest`, where no occurrence can
/// begin in `new`: the first two characters of `p` are nowhere adjacent in
/// `new`, and `new` does not end with the first.
pub proof fn lemma_occurs_behind(p: Seq<char>, new: Seq<char>, rest: Seq<char>)
    requires
        p.len() >= 2,
        !adjacent(new, p[0], p[1]),
        new.len() == 0 || new.last() != p[0],
        occurs_in(p, new + rest),
    ensures
        occurs_in(p, rest),
{
    let s = new + rest;
    let k = choose|k: int| 0 <= k <= s.len() - p.len() && #[trigger] s.subrange(k, k + p.len())
        == p;
    let found = s.subrange(k, k + p.len());
    assert(found[0] == s[k] && found[1] == s[k + 1]);
    if k + 1 < new.len() {
        lemma_adjacent(new, p[0], p[1], k);
    } else if k < new.len() {
    } else {
        let at = k - new.len();
        assert(rest.subrange(at, at + p.len()) =~= found);
    }
}

/// Whether `s` holds `p` from its position `at` on.
fn holds_at(s: &[char], at: usize, p: &[char]) -> (r: bool)
    requires
        at + p@.len() <= s@.len(),
    ensures
        r == (s@.subrange(at as int, at + p@.len()) == p@),
{
    let mut j: usize = 0;
    while j < p.len()
        invariant
            j <= p.len(),
            at + p.len() <= s.len(),
            s@.subrange(at as int, at + j) == p@.take(j as int),
        decreases p.len() - j,
    {
        if s[at + j] != p[j] {
            assert(s@.subrange(at as int, at + p@.len())[j as int] != p@[j as int]);
            return false;
        }
        assert(s@.subrange(at as int, at + j).push(s@[at + j]) == s@.subrange(
            at as int,
            at + j + 1,
        ));
        assert(p@.take(j as int).push(p@[j as int]) == p@.take(j + 1));
        j += 1;
    }
    assert(p@.take(j as int) == p@);
    true
}

/// Whether `s` holds `p` somewhere.
pub fn contains(s: &[char], p: &[char]) -> (r: bool)
    ensures
        r == occurs_in(p@, s@),
{
    if p.len() > s.len() {
        return false;
    }
    let mut i: usize = 0;
    while p.len() <= s.len() - i
        invariant
            i <= s.len(),
            forall|k: int| 0 <= k < i ==> #[trigger] s@.subrange(k, k + p@.len()) != p@,
        decreases s.len() - i,
    {
        if holds_at(s, i, p) {
            return true;
        }
        assert(p@.len() > 0) by {
            if p@.len() == 0 {
                assert(s@.subrange(i as int, i + p@.len()) =~= p@);
            }
        }
        i += 1;
    }
    false
}

} // verus!
