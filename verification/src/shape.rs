//! The shapes of the rule table that are written as shell patterns, and
//! the matcher that decides them.

use crate::text::occurs_in;
use vstd::prelude::*;

verus! {

/// `c[12]`: the Convex machines `c1` and `c2`.
pub open spec fn convex_small(s: Seq<char>) -> bool {
    s == "c1"@ || s == "c2"@
}

/// `c3[248]`: the Convex machines `c32`, `c34` and `c38`.
pub open spec fn convex_large(s: Seq<char>) -> bool {
    s == "c32"@ || s == "c34"@ || s == "c38"@
}

/// `sun*os*`: `sun`, then anything, then `os`, then anything.
pub open spec fn sun_os(s: Seq<char>) -> bool {
    "sun"@.is_prefix_of(s) && occurs_in("os"@, s.skip(3))
}

/// `i[0-9]86`: `i`, one digit, `86`.
pub open spec fn intel_x86(s: Seq<char>) -> bool {
    s.len() == 4 && s[0] == 'i' && '0' <= s[1] <= '9' && s[2] == '8' && s[3] == '6'
}

/// `sco3.2.[4-9]*`: `sco3.2.`, one digit from 4 to 9, then anything.
pub open spec fn sco_dotted(s: Seq<char>) -> bool {
    "sco3.2."@.is_prefix_of(s) && s.len() >= 8 && '4' <= s[7] <= '9'
}

/// `sco*v*`: `sco`, then anything, then `v`, then anything.
pub open spec fn sco_versioned(s: Seq<char>) -> bool {
    "sco"@.is_prefix_of(s) && s.skip(3).contains('v')
}

/// Whether `pattern` is one of the patterns of the table.
pub open spec fn is_pattern(pattern: Seq<char>) -> bool {
    pattern == "c[12]"@ || pattern == "c3[248]"@ || pattern == "sun*os*"@ || pattern
        == "i[0-9]86"@ || pattern == "sco3.2.[4-9]*"@ || pattern == "sco*v*"@
}

/// Whether `text`, as a whole, has the shape that `pattern` describes.
pub open spec fn matches_pattern(pattern: Seq<char>, text: Seq<char>) -> bool {
    if pattern == "c[12]"@ {
        convex_small(text)
    } else if pattern == "c3[248]"@ {
        convex_large(text)
    } else if pattern == "sun*os*"@ {
        sun_os(text)
    } else if pattern == "i[0-9]86"@ {
        intel_x86(text)
    } else if pattern == "sco3.2.[4-9]*"@ {
        sco_dotted(text)
    } else {
        pattern == "sco*v*"@ && sco_versioned(text)
    }
}

/// Compiles `pattern` with `glob::Pattern::new` and asks `Pattern::matches`
/// whether all of `text` matches it. Not proved: that for each pattern of
/// the table the answer is the shape written out above, which is how glob
/// reads a literal character (itself), `*` (any run of characters, the empty
/// one too) and a bracket (one character out of those listed, or out of the
/// range), with upper and lower case kept apart.
#[verifier::external_body]
fn glob_matches(pattern: &str, text: &[char]) -> (r: bool)
    requires
        is_pattern(pattern@),
    ensures
        r == matches_pattern(pattern@, text@),
{
    let text: String = text.iter().collect();
    match glob::Pattern::new(pattern) {
        Ok(compiled) => compiled.matches(&text),
        Err(_) => false,
    }
}

/// No two patterns of the table are the same.
proof fn lemma_patterns_differ()
    ensures
        "c[12]"@ != "c3[248]"@,
        "sun*os*"@ != "c[12]"@,
        "sun*os*"@ != "c3[248]"@,
        "i[0-9]86"@ != "c[12]"@,
        "i[0-9]86"@ != "c3[248]"@,
        "i[0-9]86"@ != "sun*os*"@,
        "sco3.2.[4-9]*"@ != "c[12]"@,
        "sco3.2.[4-9]*"@ != "c3[248]"@,
        "sco3.2.[4-9]*"@ != "sun*os*"@,
        "sco3.2.[4-9]*"@ != "i[0-9]86"@,
        "sco*v*"@ != "c[12]"@,
        "sco*v*"@ != "c3[248]"@,
        "sco*v*"@ != "sun*os*"@,
        "sco*v*"@ != "i[0-9]86"@,
        "sco*v*"@ != "sco3.2.[4-9]*"@,
{
    reveal_strlit("c[12]");
    reveal_strlit("c3[248]");
    reveal_strlit("sun*os*");
    reveal_strlit("i[0-9]86");
    reveal_strlit("sco3.2.[4-9]*");
    reveal_strlit("sco*v*");
    assert("c[12]"@.len() == 5 && "c[12]"@[0] == 'c');
    assert("c3[248]"@.len() == 7 && "c3[248]"@[0] == 'c');
    assert("sun*os*"@.len() == 7 && "sun*os*"@[0] == 's');
    assert("i[0-9]86"@.len() == 8 && "i[0-9]86"@[0] == 'i');
    assert("sco3.2.[4-9]*"@.len() == 13 && "sco3.2.[4-9]*"@[0] == 's');
    assert("sco*v*"@.len() == 6 && "sco*v*"@[0] == 's');
}

/// Whether `s` is `c1` or `c2`.
pub fn is_convex_small(s: &[char]) -> (r: bool)
    ensures
        r == convex_small(s@),
{
    proof {
        lemma_patterns_differ();
    }
    glob_matches("c[12]", s)
}

/// Whether `s` is `c32`, `c34` or `c38`.
pub fn is_convex_large(s: &[char]) -> (r: bool)
    ensures
        r == convex_large(s@),
{
    proof {
        lemma_patterns_differ();
    }
    glob_matches("c3[248]", s)
}

/// Whether `s` begins with `sun` and holds `os` after that.
pub fn is_sun_os(s: &[char]) -> (r: bool)
    ensures
        r == sun_os(s@),
{
    proof {
        lemma_patterns_differ();
    }
    glob_matches("sun*os*", s)
}

/// Whether `s` is `i`, a digit and `86`.
pub fn is_intel_x86(s: &[char]) -> (r: bool)
    ensures
        r == intel_x86(s@),
{
    proof {
        lemma_patterns_differ();
    }
    glob_matches("i[0-9]86", s)
}

/// Whether `s` begins with `sco3.2.` and a digit from 4 to 9.
pub fn is_sco_dotted(s: &[char]) -> (r: bool)
    ensures
        r == sco_dotted(s@),
{
    proof {
        lemma_patterns_differ();
    }
    glob_matches("sco3.2.[4-9]*", s)
}

/// Whether `s` begins with `sco` and holds a `v` after that.
pub fn is_sco_versioned(s: &[char]) -> (r: bool)
    ensures
        r == sco_versioned(s@),
{
    proof {
        lemma_patterns_differ();
    }
    glob_matches("sco*v*", s)
}

} // verus!
