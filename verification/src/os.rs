//! The kernel and operating system normalizer: from the basic operating
//! system to the kernel, the operating system and the object format that
//! the canonical name shows.

use crate::facts::{lemma_alias_words, lemma_kernel_words, lemma_system_words};
use crate::shape::{is_sco_dotted, is_sco_versioned, sco_dotted, sco_versioned};
use crate::split::{cut, head_len, is_plain};
use crate::text::{append, chars_of, equals, starts_with, suffix_of};
use vstd::prelude::*;
use vstd::string::StrSliceExecFns;

verus! {

/// `s` with `new` in the place of its beginning `old`.
pub open spec fn respelled(s: Seq<char>, old: Seq<char>, new: Seq<char>) -> Seq<char>
    recommends
        old.is_prefix_of(s),
{
    new + s.skip(old.len() as int)
}

/// Whether the first pass knows the kernel of `b` by how `b` begins: by one
/// of the beginnings that it has a rule for.
pub open spec fn known_kernel(b: Seq<char>) -> bool {
    "gnu/linux"@.is_prefix_of(b) || b == "os2-emx"@ || "nto-qnx"@.is_prefix_of(b)
        || "nto"@.is_prefix_of(b) || "ironclad"@.is_prefix_of(b) || "linux"@.is_prefix_of(b)
        || "managarm"@.is_prefix_of(b)
}

/// The first pass: the kernel and the operating system that the basic
/// operating system `b` holds. Some kernels are known by how `b` begins,
/// and bring their usual system with them; any other `b` is cut at its
/// first delimiter, and one without a delimiter names no kernel.
pub open spec fn kernel_and_os(b: Seq<char>) -> (Seq<char>, Seq<char>) {
    if "gnu/linux"@.is_prefix_of(b) {
        ("linux"@, respelled(b, "gnu/linux"@, "gnu"@))
    } else if b == "os2-emx"@ {
        ("os2"@, "emx"@)
    } else if "nto-qnx"@.is_prefix_of(b) {
        ("nto"@, respelled(b, "nto-qnx"@, "qnx"@))
    } else if "nto"@.is_prefix_of(b) {
        ("nto"@, respelled(b, "nto"@, "qnx"@))
    } else if "ironclad"@.is_prefix_of(b) {
        ("ironclad"@, respelled(b, "ironclad"@, "mlibc"@))
    } else if "linux"@.is_prefix_of(b) {
        ("linux"@, respelled(b, "linux"@, "gnu"@))
    } else if "managarm"@.is_prefix_of(b) {
        ("managarm"@, "mlibc"@)
    } else if is_plain(b) {
        (Seq::empty(), b)
    } else {
        (b.take(head_len(b) as int), b.skip(head_len(b) as int + 1))
    }
}

/// Whether `s` begins as the name of an object format does.
pub open spec fn object_format_name(s: Seq<char>) -> bool {
    "aout"@.is_prefix_of(s) || "coff"@.is_prefix_of(s) || "elf"@.is_prefix_of(s)
        || "pe"@.is_prefix_of(s)
}

/// Whether `s` is a spelling of the first NeXTSTEP.
pub open spec fn nextstep_one(s: Seq<char>) -> bool {
    s == "ns"@ || s == "ns1"@ || s == "nextstep"@ || s == "nextstep1"@ || s == "openstep1"@
}

/// Whether `s` is a spelling of the second NeXTSTEP.
pub open spec fn nextstep_two(s: Seq<char>) -> bool {
    s == "ns2"@ || s == "nextstep2"@ || s == "openstep2"@
}

/// Whether `s` is a spelling of the third OPENSTEP.
pub open spec fn openstep_three(s: Seq<char>) -> bool {
    s == "ns3"@ || s == "nextstep3"@ || s == "openstep"@ || s == "openstep3"@
}

/// Whether `s` is a spelling of the fourth OPENSTEP.
pub open spec fn openstep_four(s: Seq<char>) -> bool {
    s == "ns4"@ || s == "nextstep4"@ || s == "openstep4"@
}

/// The second pass: the operating system and the object format that the
/// operating system `os` of the first pass stands for on the cpu `cpu`.
/// An alias is rewritten, the name of an object format moves to the
/// second place, and any other name stays.
pub open spec fn os_and_format(os: Seq<char>, cpu: Seq<char>) -> (Seq<char>, Seq<char>) {
    if "bluegene"@.is_prefix_of(os) {
        ("cnk"@, Seq::empty())
    } else if os == "solaris1"@ || "solaris1."@.is_prefix_of(os) {
        (respelled(os, "solaris1"@, "sunos4"@), Seq::empty())
    } else if os == "solaris"@ {
        ("solaris2"@, Seq::empty())
    } else if "unixware"@.is_prefix_of(os) {
        ("sysv4.2uw"@, Seq::empty())
    } else if nextstep_one(os) {
        ("nextstep"@, Seq::empty())
    } else if nextstep_two(os) {
        ("nextstep2"@, Seq::empty())
    } else if openstep_three(os) {
        ("openstep3"@, Seq::empty())
    } else if openstep_four(os) {
        ("openstep4"@, Seq::empty())
    } else if "es1800"@.is_prefix_of(os) {
        ("ose"@, Seq::empty())
    } else if "chorusos"@.is_prefix_of(os) {
        ("chorusos"@, Seq::empty())
    } else if os == "isc"@ {
        ("isc2.2"@, Seq::empty())
    } else if os == "sco6"@ {
        ("sco5v6"@, Seq::empty())
    } else if os == "sco5"@ {
        ("sco3.2v5"@, Seq::empty())
    } else if os == "sco4"@ {
        ("sco3.2v4"@, Seq::empty())
    } else if sco_dotted(os) {
        (respelled(os, "sco3.2."@, "sco3.2v"@), Seq::empty())
    } else if sco_versioned(os) || os == "scout"@ {
        (os, Seq::empty())
    } else if "sco"@.is_prefix_of(os) {
        ("sco3.2v2"@, Seq::empty())
    } else if "psos"@.is_prefix_of(os) {
        ("psos"@, Seq::empty())
    } else if "pikeos"@.is_prefix_of(os) {
        if "arm"@.is_prefix_of(cpu) {
            ("eabi"@, Seq::empty())
        } else {
            (Seq::empty(), "elf"@)
        }
    } else if object_format_name(os) {
        (Seq::empty(), os)
    } else {
        (os, Seq::empty())
    }
}

/// The kernel, the operating system and the object format of the basic
/// operating system `b` on the cpu `cpu`.
pub open spec fn system_of(b: Seq<char>, cpu: Seq<char>) -> (Seq<char>, Seq<char>, Seq<char>) {
    (
        kernel_and_os(b).0,
        os_and_format(kernel_and_os(b).1, cpu).0,
        os_and_format(kernel_and_os(b).1, cpu).1,
    )
}

/// Puts `new` in the place of the beginning `old` of `s`.
pub fn respell(s: &[char], old: &str, new: &str) -> (r: Vec<char>)
    requires
        old@.is_prefix_of(s@),
    ensures
        r@ == respelled(s@, old@, new@),
{
    let mut r = chars_of(new);
    let rest = suffix_of(s, old.unicode_len());
    append(&mut r, rest.as_slice());
    r
}

/// Whether `s` begins as the name of an object format does.
pub fn is_object_format_name(s: &[char]) -> (r: bool)
    ensures
        r == object_format_name(s@),
{
    starts_with(s, "aout") || starts_with(s, "coff") || starts_with(s, "elf") || starts_with(
        s,
        "pe",
    )
}

/// The first pass: kernel and operating system.
pub fn split_kernel_os(b: Vec<char>) -> (r: (Vec<char>, Vec<char>))
    ensures
        r@ == kernel_and_os(b@),
{
    let s = b.as_slice();
    if starts_with(s, "gnu/linux") {
        (chars_of("linux"), respell(s, "gnu/linux", "gnu"))
    } else if equals(s, "os2-emx") {
        (chars_of("os2"), chars_of("emx"))
    } else if starts_with(s, "nto-qnx") {
        (chars_of("nto"), respell(s, "nto-qnx", "qnx"))
    } else if starts_with(s, "nto") {
        (chars_of("nto"), respell(s, "nto", "qnx"))
    } else if starts_with(s, "ironclad") {
        (chars_of("ironclad"), respell(s, "ironclad", "mlibc"))
    } else if starts_with(s, "linux") {
        (chars_of("linux"), respell(s, "linux", "gnu"))
    } else if starts_with(s, "managarm") {
        (chars_of("managarm"), chars_of("mlibc"))
    } else {
        match cut(s) {
            (kernel, Some(os)) => (kernel, os),
            (_, None) => (Vec::new(), b),
        }
    }
}

/// The second pass: operating system and object format.
pub fn split_os_format(os: Vec<char>, cpu: &[char]) -> (r: (Vec<char>, Vec<char>))
    ensures
        r@ == os_and_format(os@, cpu@),
{
    let s = os.as_slice();
    if starts_with(s, "bluegene") {
        (chars_of("cnk"), Vec::new())
    } else if equals(s, "solaris1") || starts_with(s, "solaris1.") {
        proof {
            reveal_strlit("solaris1");
            reveal_strlit("solaris1.");
        }
        (respell(s, "solaris1", "sunos4"), Vec::new())
    } else if equals(s, "solaris") {
        (chars_of("solaris2"), Vec::new())
    } else if starts_with(s, "unixware") {
        (chars_of("sysv4.2uw"), Vec::new())
    } else if equals(s, "ns") || equals(s, "ns1") || equals(s, "nextstep") || equals(
        s,
        "nextstep1",
    ) || equals(s, "openstep1") {
        (chars_of("nextstep"), Vec::new())
    } else if equals(s, "ns2") || equals(s, "nextstep2") || equals(s, "openstep2") {
        (chars_of("nextstep2"), Vec::new())
    } else if equals(s, "ns3") || equals(s, "nextstep3") || equals(s, "openstep") || equals(
        s,
        "openstep3",
    ) {
        (chars_of("openstep3"), Vec::new())
    } else if equals(s, "ns4") || equals(s, "nextstep4") || equals(s, "openstep4") {
        (chars_of("openstep4"), Vec::new())
    } else if starts_with(s, "es1800") {
        (chars_of("ose"), Vec::new())
    } else if starts_with(s, "chorusos") {
        (chars_of("chorusos"), Vec::new())
    } else if equals(s, "isc") {
        (chars_of("isc2.2"), Vec::new())
    } else if equals(s, "sco6") {
        (chars_of("sco5v6"), Vec::new())
    } else if equals(s, "sco5") {
        (chars_of("sco3.2v5"), Vec::new())
    } else if equals(s, "sco4") {
        (chars_of("sco3.2v4"), Vec::new())
    } else if is_sco_dotted(s) {
        (respell(s, "sco3.2.", "sco3.2v"), Vec::new())
    } else if is_sco_versioned(s) || equals(s, "scout") {
        (os, Vec::new())
    } else if starts_with(s, "sco") {
        (chars_of("sco3.2v2"), Vec::new())
    } else if starts_with(s, "psos") {
        (chars_of("psos"), Vec::new())
    } else if starts_with(s, "pikeos") {
        if starts_with(cpu, "arm") {
            (chars_of("eabi"), Vec::new())
        } else {
            (Vec::new(), chars_of("elf"))
        }
    } else if is_object_format_name(s) {
        (Vec::new(), os)
    } else {
        (os, Vec::new())
    }
}

/// An empty basic operating system names no kernel, no operating system
/// and no object format.
pub proof fn lemma_empty_system(cpu: Seq<char>)
    ensures
        system_of(Seq::empty(), cpu) == (
            Seq::<char>::empty(),
            Seq::<char>::empty(),
            Seq::<char>::empty(),
        ),
{
    lemma_kernel_words();
    lemma_alias_words();
    lemma_system_words();
    assert(is_plain(Seq::<char>::empty()));
}

/// The kernel, the operating system and the object format of the basic
/// operating system `b` on the cpu `cpu`: what the two passes make of it,
/// which for an empty `b` is three empty texts.
pub fn normalize_os(b: Vec<char>, cpu: &[char]) -> (r: (Vec<char>, Vec<char>, Vec<char>))
    ensures
        r@ == system_of(b@, cpu@),
        b@.len() == 0 ==> r.0@.len() == 0 && r.1@.len() == 0 && r.2@.len() == 0,
{
    proof {
        if b@.len() == 0 {
            assert(b@ =~= Seq::empty());
            lemma_empty_system(cpu@);
        }
    }
    let (kernel, os) = split_kernel_os(b);
    let (os, format) = split_os_format(os, cpu);
    (kernel, os, format)
}

} // verus!
