//! The field splitter: an identifier that holds the tag `local` is passed
//! on as it stands; any other is cut at each delimiter into its fields, of
//! which there may be one to four.

use crate::error::{Error, Failure};
use crate::text::{
    append, append_str, chars_of, contains, copy_of, lemma_occurs_in_part, occurs_in, prefix_of,
    suffix_of,
};
use vstd::prelude::*;

verus! {

/// The character that stands between two fields.
pub const DELIMITER: char = '-';

/// How many characters stand before the first delimiter of `s`: all of
/// them where `s` holds no delimiter.
pub open spec fn head_len(s: Seq<char>) -> nat
    decreases s.len(),
{
    if s.len() == 0 || s[0] == DELIMITER {
        0
    } else {
        1 + head_len(s.skip(1))
    }
}

/// Whether `s` holds no delimiter.
pub open spec fn is_plain(s: Seq<char>) -> bool {
    forall|i: int| 0 <= i < s.len() ==> #[trigger] s[i] != DELIMITER
}

/// The fields of `s`: the runs of characters between its delimiters, in
/// order, the empty ones too. There is one field more than delimiters.
pub open spec fn fields(s: Seq<char>) -> Seq<Seq<char>>
    decreases s.len(),
{
    let n = head_len(s) as int;
    if n >= s.len() {
        seq![s]
    } else {
        seq![s.take(n)] + fields(s.skip(n + 1))
    }
}

/// `a` and `b` with one delimiter between them.
pub open spec fn joined(a: Seq<char>, b: Seq<char>) -> Seq<char> {
    a + seq![DELIMITER] + b
}

/// Whether `s` is tagged as a name of local making, which is taken as it
/// stands.
pub open spec fn local(s: Seq<char>) -> bool {
    occurs_in("local"@, s)
}

/// `head_len` points at the first delimiter, or behind the last character.
pub proof fn lemma_head_len(s: Seq<char>)
    ensures
        head_len(s) <= s.len(),
        is_plain(s.take(head_len(s) as int)),
        head_len(s) < s.len() ==> s[head_len(s) as int] == DELIMITER,
        head_len(s) == s.len() <==> is_plain(s),
    decreases s.len(),
{
    if s.len() == 0 || s[0] == DELIMITER {
    } else {
        let t = s.skip(1);
        lemma_head_len(t);
        let n = head_len(t) as int;
        let u = s.take(n + 1);
        assert forall|i: int| 0 <= i < u.len() implies #[trigger] u[i] != DELIMITER by {
            if i > 0 {
                assert(t.take(n)[i - 1] == s[i]);
            }
        }
        if is_plain(s) {
            assert forall|i: int| 0 <= i < t.len() implies #[trigger] t[i] != DELIMITER by {
                assert(t[i] == s[i + 1]);
            }
        }
        if is_plain(t) {
            assert forall|i: int| 0 <= i < s.len() implies #[trigger] s[i] != DELIMITER by {
                if i > 0 {
                    assert(t[i - 1] == s[i]);
                }
            }
        }
    }
}

/// The one position that `head_len` can name.
pub proof fn lemma_head_len_is(s: Seq<char>, n: int)
    requires
        0 <= n <= s.len(),
        is_plain(s.take(n)),
        n < s.len() ==> s[n] == DELIMITER,
    ensures
        head_len(s) == n,
{
    lemma_head_len(s);
    let m = head_len(s) as int;
    if m < n {
        assert(s.take(n)[m] == s[m]);
    } else if n < m {
        assert(s.take(m)[n] == s[n]);
    }
}

/// A text that begins with a field without delimiters is cut behind that
/// field.
pub proof fn lemma_joined(a: Seq<char>, b: Seq<char>)
    requires
        is_plain(a),
    ensures
        head_len(joined(a, b)) == a.len(),
        joined(a, b).take(a.len() as int) == a,
        joined(a, b).skip(a.len() as int + 1) == b,
        !is_plain(joined(a, b)),
        joined(a, b).len() == a.len() + 1 + b.len(),
{
    let s = joined(a, b);
    assert(s.take(a.len() as int) =~= a);
    assert(s.skip(a.len() as int + 1) =~= b);
    assert(s[a.len() as int] == DELIMITER);
    lemma_head_len_is(s, a.len() as int);
}

/// A text that is not plain is its first field, a delimiter and the rest.
pub proof fn lemma_cut(s: Seq<char>)
    requires
        !is_plain(s),
    ensures
        s == joined(s.take(head_len(s) as int), s.skip(head_len(s) as int + 1)),
        is_plain(s.take(head_len(s) as int)),
{
    lemma_head_len(s);
    assert(s =~= joined(s.take(head_len(s) as int), s.skip(head_len(s) as int + 1)));
}

/// The fields of a plain field followed by more text are that field and
/// the fields of the rest.
pub proof fn lemma_fields_joined(a: Seq<char>, rest: Seq<char>)
    requires
        is_plain(a),
    ensures
        fields(joined(a, rest)) == seq![a] + fields(rest),
{
    lemma_joined(a, rest);
    lemma_fields(joined(a, rest));
}

/// No field holds a delimiter.
pub proof fn lemma_fields_plain(s: Seq<char>, i: int)
    requires
        0 <= i < fields(s).len(),
    ensures
        is_plain(fields(s)[i]),
    decreases s.len(),
{
    lemma_fields(s);
    lemma_head_len(s);
    if !is_plain(s) {
        if i > 0 {
            lemma_fields_plain(s.skip(head_len(s) as int + 1), i - 1);
        }
    }
}

/// A word without delimiters that occurs in a joined text occurs in one
/// of the two that were joined.
pub proof fn lemma_occurs_in_joined(p: Seq<char>, a: Seq<char>, b: Seq<char>)
    requires
        is_plain(p),
        occurs_in(p, joined(a, b)),
    ensures
        occurs_in(p, a) || occurs_in(p, b),
{
    let s = joined(a, b);
    let k = choose|k: int| 0 <= k <= s.len() - p.len() && #[trigger] s.subrange(k, k + p.len())
        == p;
    let found = s.subrange(k, k + p.len());
    let n = a.len() as int;
    if k + p.len() <= n {
        assert(a.subrange(k, k + p.len()) =~= found);
    } else if k > n {
        let at = k - n - 1;
        assert(b.subrange(at, at + p.len()) =~= found);
    } else {
        assert(found[n - k] == DELIMITER);
    }
}

/// No field of a text that is not local is local.
pub proof fn lemma_fields_not_local(s: Seq<char>, i: int)
    requires
        !local(s),
        0 <= i < fields(s).len(),
    ensures
        !local(fields(s)[i]),
    decreases s.len(),
{
    lemma_fields(s);
    lemma_head_len(s);
    if !is_plain(s) {
        let n = head_len(s) as int;
        if i > 0 {
            if local(s.skip(n + 1)) {
                lemma_occurs_in_part("local"@, s, n + 1, s.len() as int);
            }
            lemma_fields_not_local(s.skip(n + 1), i - 1);
        } else if local(s.take(n)) {
            lemma_occurs_in_part("local"@, s, 0, n);
        }
    }
}

/// The fields of an identifier, one to four of them.
#[derive(Debug, Clone, PartialEq, Eq)]
pub enum Fields {
    One(Vec<char>),
    Two(Vec<char>, Vec<char>),
    Three(Vec<char>, Vec<char>, Vec<char>),
    Four(Vec<char>, Vec<char>, Vec<char>, Vec<char>),
}

impl View for Fields {
    type V = Seq<Seq<char>>;

    open spec fn view(&self) -> Seq<Seq<char>> {
        match self {
            Fields::One(a) => seq![a@],
            Fields::Two(a, b) => seq![a@, b@],
            Fields::Three(a, b, c) => seq![a@, b@, c@],
            Fields::Four(a, b, c, d) => seq![a@, b@, c@, d@],
        }
    }
}

/// Whether `s` holds the tag `local`.
pub fn is_local(s: &[char]) -> (r: bool)
    ensures
        r == local(s@),
{
    let tag = chars_of("local");
    contains(s, tag.as_slice())
}

/// The position of the first delimiter of `s`, or its length where it has
/// none.
pub fn first_delimiter(s: &[char]) -> (n: usize)
    ensures
        n == head_len(s@),
        n <= s@.len(),
{
    let mut i: usize = 0;
    while i < s.len() && s[i] != DELIMITER
        invariant
            i <= s.len(),
            is_plain(s@.take(i as int)),
        decreases s.len() - i,
    {
        i += 1;
    }
    proof {
        lemma_head_len_is(s@, i as int);
    }
    i
}

/// The fields of `s` are its first field and, behind a delimiter, the
/// fields of the rest.
pub proof fn lemma_fields(s: Seq<char>)
    ensures
        is_plain(s) ==> fields(s) == seq![s],
        !is_plain(s) ==> fields(s) == seq![s.take(head_len(s) as int)] + fields(
            s.skip(head_len(s) as int + 1),
        ),
        fields(s).len() >= 1,
{
    lemma_head_len(s);
}

/// Cuts `s` at its first delimiter: the field before it, and what follows
/// it, if there is one.
pub fn cut(s: &[char]) -> (r: (Vec<char>, Option<Vec<char>>))
    ensures
        r.0@ == s@.take(head_len(s@) as int),
        r.1 is Some <==> !is_plain(s@),
        r.1 is Some ==> r.1->0@ == s@.skip(head_len(s@) as int + 1),
        r.1 is None ==> r.0@ == s@,
{
    let n = first_delimiter(s);
    proof {
        lemma_head_len(s@);
    }
    if n < s.len() {
        (prefix_of(s, n), Some(suffix_of(s, n + 1)))
    } else {
        assert(s@.take(n as int) == s@);
        (prefix_of(s, n), None)
    }
}

/// Cuts `s` into its fields, and refuses it where there are more than
/// four.
pub fn split_fields(s: &[char]) -> (r: Result<Fields, Error>)
    ensures
        r is Ok <==> fields(s@).len() <= 4,
        r is Ok ==> r->Ok_0@ == fields(s@),
        r is Err ==> r->Err_0@ == Failure::TooManyComponents,
{
    let (a, rest) = cut(s);
    proof {
        lemma_fields(s@);
    }
    match rest {
        None => Ok(Fields::One(a)),
        Some(rest) => {
            let ghost s1 = rest@;
            let (b, rest) = cut(rest.as_slice());
            proof {
                lemma_fields(s1);
            }
            match rest {
                None => {
                    assert(fields(s@) =~= seq![a@, b@]);
                    Ok(Fields::Two(a, b))
                },
                Some(rest) => {
                    let ghost s2 = rest@;
                    let (c, rest) = cut(rest.as_slice());
                    proof {
                        lemma_fields(s2);
                    }
                    match rest {
                        None => {
                            assert(fields(s@) =~= seq![a@, b@, c@]);
                            Ok(Fields::Three(a, b, c))
                        },
                        Some(rest) => {
                            let ghost s3 = rest@;
                            let (d, rest) = cut(rest.as_slice());
                            proof {
                                lemma_fields(s3);
                            }
                            match rest {
                                None => {
                                    assert(fields(s@) =~= seq![a@, b@, c@, d@]);
                                    Ok(Fields::Four(a, b, c, d))
                                },
                                Some(rest) => {
                                    proof {
                                        lemma_fields(rest@);
                                    }
                                    Err(Error::TooManyComponents)
                                },
                            }
                        },
                    }
                },
            }
        },
    }
}

/// What the splitter makes of an identifier that it does not refuse.
#[derive(Debug, Clone, PartialEq, Eq)]
pub enum Split {
    /// The identifier is tagged as local, and is taken as it stands.
    Local,
    /// The identifier has these fields.
    Fields(Fields),
}

/// Splits an identifier: one that holds the tag `local` is passed on as
/// it stands, however many fields it has; any other is cut into its
/// fields, and refused where there are more than four.
pub fn split(s: &[char]) -> (r: Result<Split, Error>)
    ensures
        local(s@) ==> r == Ok::<Split, Error>(Split::Local),
        !local(s@) ==> (r is Ok <==> fields(s@).len() <= 4),
        !local(s@) && r is Ok ==> r->Ok_0 is Fields && r->Ok_0->Fields_0@ == fields(s@),
        r is Err ==> r->Err_0@ == Failure::TooManyComponents,
{
    if is_local(s) {
        Ok(Split::Local)
    } else {
        match split_fields(s) {
            Ok(fields) => Ok(Split::Fields(fields)),
            Err(e) => Err(e),
        }
    }
}

/// `a`, a delimiter, `b`.
pub fn join(a: &[char], b: &[char]) -> (r: Vec<char>)
    ensures
        r@ == joined(a@, b@),
{
    let mut r = copy_of(a);
    r.push(DELIMITER);
    append(&mut r, b);
    r
}

/// `a`, a delimiter, the literal `b`.
pub fn join_str(a: &[char], b: &str) -> (r: Vec<char>)
    ensures
        r@ == joined(a@, b@),
{
    let mut r = copy_of(a);
    r.push(DELIMITER);
    append_str(&mut r, b);
    r
}

} // verus!
