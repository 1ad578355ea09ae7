//! The alias resolver: from the fields of an identifier to its basic
//! machine and its basic operating system. Each arity has its own ordered
//! table, in which the first rule that fits decides.

use crate::error::{Error, Failure};
use crate::shape::{
    convex_large, convex_small, is_convex_large, is_convex_small, is_sun_os, sun_os,
};
use crate::split::{join, join_str, joined, Fields};
use crate::text::{chars_of, equals, starts_with};
use vstd::prelude::*;

verus! {

/// Whether the pair `a`, `b` is a kernel with its operating system, so
/// that an identifier `cpu-a-b` names no vendor.
pub open spec fn compound_os(a: Seq<char>, b: Seq<char>) -> bool {
    ||| ("cloudabi"@.is_prefix_of(a) && "eabi"@.is_prefix_of(b))
    ||| ("kfreebsd"@.is_prefix_of(a) && "gnu"@.is_prefix_of(b))
    ||| ("knetbsd"@.is_prefix_of(a) && "gnu"@.is_prefix_of(b))
    ||| ("kopensolaris"@.is_prefix_of(a) && "gnu"@.is_prefix_of(b))
    ||| a == "ironclad"@
    ||| a == "linux"@
    ||| a == "managarm"@
    ||| ("netbsd"@.is_prefix_of(a) && "eabi"@.is_prefix_of(b))
    ||| ("netbsd"@.is_prefix_of(a) && "gnu"@.is_prefix_of(b))
    ||| (a == "nto"@ && "qnx"@.is_prefix_of(b))
    ||| (a == "os2"@ && "emx"@.is_prefix_of(b))
    ||| (a == "rtmk"@ && "nova"@.is_prefix_of(b))
    ||| (a == "storm"@ && "chaos"@.is_prefix_of(b))
    ||| (a == "uclinux"@ && "gnu"@.is_prefix_of(b))
    ||| (a == "uclinux"@ && "uclibc"@.is_prefix_of(b))
    ||| a == "windows"@
}

/// Whether `s` begins as the name of a maker of hardware does, or as one
/// of the model numbers that stand for a maker.
pub open spec fn vendor_name(s: Seq<char>) -> bool {
    ||| "3100"@.is_prefix_of(s)
    ||| "32"@.is_prefix_of(s)
    ||| "3300"@.is_prefix_of(s)
    ||| "3600"@.is_prefix_of(s)
    ||| "7300"@.is_prefix_of(s)
    ||| "acorn"@.is_prefix_of(s)
    ||| "altos"@.is_prefix_of(s)
    ||| "apollo"@.is_prefix_of(s)
    ||| "apple"@.is_prefix_of(s)
    ||| "atari"@.is_prefix_of(s)
    ||| "att"@.is_prefix_of(s)
    ||| "axis"@.is_prefix_of(s)
    ||| "be"@.is_prefix_of(s)
    ||| "bull"@.is_prefix_of(s)
    ||| "cbm"@.is_prefix_of(s)
    ||| "ccur"@.is_prefix_of(s)
    ||| "cisco"@.is_prefix_of(s)
    ||| "commodore"@.is_prefix_of(s)
    ||| "convergent"@.is_prefix_of(s)
    ||| "convex"@.is_prefix_of(s)
    ||| "cray"@.is_prefix_of(s)
    ||| "crds"@.is_prefix_of(s)
    ||| "dec"@.is_prefix_of(s)
    ||| "delta"@.is_prefix_of(s)
    ||| "dg"@.is_prefix_of(s)
    ||| "digital"@.is_prefix_of(s)
    ||| "dolphin"@.is_prefix_of(s)
    ||| "encore"@.is_prefix_of(s)
    ||| "gould"@.is_prefix_of(s)
    ||| "harris"@.is_prefix_of(s)
    ||| "highlevel"@.is_prefix_of(s)
    ||| "hitachi"@.is_prefix_of(s)
    ||| "hp"@.is_prefix_of(s)
    ||| "ibm"@.is_prefix_of(s)
    ||| "intergraph"@.is_prefix_of(s)
    ||| "isi"@.is_prefix_of(s)
    ||| "knuth"@.is_prefix_of(s)
    ||| "masscomp"@.is_prefix_of(s)
    ||| "microblaze"@.is_prefix_of(s)
    ||| "mips"@.is_prefix_of(s)
    ||| "motorola"@.is_prefix_of(s)
    ||| "ncr"@.is_prefix_of(s)
    ||| "news"@.is_prefix_of(s)
    ||| "next"@.is_prefix_of(s)
    ||| "ns"@.is_prefix_of(s)
    ||| "oki"@.is_prefix_of(s)
    ||| "omron"@.is_prefix_of(s)
    ||| "pc533"@.is_prefix_of(s)
    ||| "rebel"@.is_prefix_of(s)
    ||| "rom68k"@.is_prefix_of(s)
    ||| "rombug"@.is_prefix_of(s)
    ||| "semi"@.is_prefix_of(s)
    ||| "sequent"@.is_prefix_of(s)
    ||| "sgi"@.is_prefix_of(s)
    ||| "siemens"@.is_prefix_of(s)
    ||| "sim"@.is_prefix_of(s)
    ||| "sni"@.is_prefix_of(s)
    ||| "sony"@.is_prefix_of(s)
    ||| "stratus"@.is_prefix_of(s)
    ||| "sun"@.is_prefix_of(s)
    ||| "tektronix"@.is_prefix_of(s)
    ||| "tti"@.is_prefix_of(s)
    ||| "ultra"@.is_prefix_of(s)
    ||| "unicom"@.is_prefix_of(s)
    ||| "wec"@.is_prefix_of(s)
    ||| "winbond"@.is_prefix_of(s)
    ||| "wrs"@.is_prefix_of(s)
}

/// Whether `s` begins as the name of an embedded system does that is
/// written without a vendor.
pub open spec fn bare_system(s: Seq<char>) -> bool {
    "tock"@.is_prefix_of(s) || "zephyr"@.is_prefix_of(s)
}

/// The basic machine and basic operating system of the one-word name `a`,
/// if it is one of the table.
pub open spec fn resolved_one(a: Seq<char>) -> Option<(Seq<char>, Seq<char>)> {
    if a == "386bsd"@ {
        Some(("i386-pc"@, "bsd"@))
    } else {
        None
    }
}

/// The basic machine and basic operating system of `a-b`.
pub open spec fn resolved_two(a: Seq<char>, b: Seq<char>) -> (Seq<char>, Seq<char>) {
    if a == "convex"@ && (convex_small(b) || convex_large(b)) {
        (joined(b, "convex"@), Seq::empty())
    } else if a == "decstation"@ && b == "3100"@ {
        ("mips-dec"@, Seq::empty())
    } else if sun_os(b) {
        (a, b)
    } else if vendor_name(b) {
        (joined(a, b), Seq::empty())
    } else if bare_system(b) {
        (joined(a, "unknown"@), b)
    } else {
        (a, b)
    }
}

/// The basic machine and basic operating system of `a-b-c`.
pub open spec fn resolved_three(a: Seq<char>, b: Seq<char>, c: Seq<char>) -> (
    Seq<char>,
    Seq<char>,
) {
    if compound_os(b, c) {
        (a, joined(b, c))
    } else if b == "android"@ && c == "linux"@ {
        (joined(a, "unknown"@), "linux-android"@)
    } else {
        (joined(a, b), c)
    }
}

/// The basic machine and basic operating system of the identifier with
/// the fields `f`; none for a single word that is no known name.
pub open spec fn resolved(f: Seq<Seq<char>>) -> Option<(Seq<char>, Seq<char>)>
    recommends
        1 <= f.len() <= 4,
{
    if f.len() == 1 {
        resolved_one(f[0])
    } else if f.len() == 2 {
        Some(resolved_two(f[0], f[1]))
    } else if f.len() == 3 {
        Some(resolved_three(f[0], f[1], f[2]))
    } else {
        Some((joined(f[0], f[1]), joined(f[2], f[3])))
    }
}

/// Whether `a`, `b` is a kernel with its operating system.
pub fn is_compound_os(a: &[char], b: &[char]) -> (r: bool)
    ensures
        r == compound_os(a@, b@),
{
    (starts_with(a, "cloudabi") && starts_with(b, "eabi"))
        || (starts_with(a, "kfreebsd") && starts_with(b, "gnu"))
        || (starts_with(a, "knetbsd") && starts_with(b, "gnu"))
        || (starts_with(a, "kopensolaris") && starts_with(b, "gnu"))
        || equals(a, "ironclad")
        || equals(a, "linux")
        || equals(a, "managarm")
        || (starts_with(a, "netbsd") && starts_with(b, "eabi"))
        || (starts_with(a, "netbsd") && starts_with(b, "gnu"))
        || (equals(a, "nto") && starts_with(b, "qnx"))
        || (equals(a, "os2") && starts_with(b, "emx"))
        || (equals(a, "rtmk") && starts_with(b, "nova"))
        || (equals(a, "storm") && starts_with(b, "chaos"))
        || (equals(a, "uclinux") && starts_with(b, "gnu"))
        || (equals(a, "uclinux") && starts_with(b, "uclibc"))
        || equals(a, "windows")
}

/// Whether `s` begins as a vendor's name does.
pub fn is_vendor_name(s: &[char]) -> (r: bool)
    ensures
        r == vendor_name(s@),
{
    starts_with(s, "3100")
        || starts_with(s, "32")
        || starts_with(s, "3300")
        || starts_with(s, "3600")
        || starts_with(s, "7300")
        || starts_with(s, "acorn")
        || starts_with(s, "altos")
        || starts_with(s, "apollo")
        || starts_with(s, "apple")
        || starts_with(s, "atari")
        || starts_with(s, "att")
        || starts_with(s, "axis")
        || starts_with(s, "be")
        || starts_with(s, "bull")
        || starts_with(s, "cbm")
        || starts_with(s, "ccur")
        || starts_with(s, "cisco")
        || starts_with(s, "commodore")
        || starts_with(s, "convergent")
        || starts_with(s, "convex")
        || starts_with(s, "cray")
        || starts_with(s, "crds")
        || starts_with(s, "dec")
        || starts_with(s, "delta")
        || starts_with(s, "dg")
        || starts_with(s, "digital")
        || starts_with(s, "dolphin")
        || starts_with(s, "encore")
        || starts_with(s, "gould")
        || starts_with(s, "harris")
        || starts_with(s, "highlevel")
        || starts_with(s, "hitachi")
        || starts_with(s, "hp")
        || starts_with(s, "ibm")
        || starts_with(s, "intergraph")
        || starts_with(s, "isi")
        || starts_with(s, "knuth")
        || starts_with(s, "masscomp")
        || starts_with(s, "microblaze")
        || starts_with(s, "mips")
        || starts_with(s, "motorola")
        || starts_with(s, "ncr")
        || starts_with(s, "news")
        || starts_with(s, "next")
        || starts_with(s, "ns")
        || starts_with(s, "oki")
        || starts_with(s, "omron")
        || starts_with(s, "pc533")
        || starts_with(s, "rebel")
        || starts_with(s, "rom68k")
        || starts_with(s, "rombug")
        || starts_with(s, "semi")
        || starts_with(s, "sequent")
        || starts_with(s, "sgi")
        || starts_with(s, "siemens")
        || starts_with(s, "sim")
        || starts_with(s, "sni")
        || starts_with(s, "sony")
        || starts_with(s, "stratus")
        || starts_with(s, "sun")
        || starts_with(s, "tektronix")
        || starts_with(s, "tti")
        || starts_with(s, "ultra")
        || starts_with(s, "unicom")
        || starts_with(s, "wec")
        || starts_with(s, "winbond")
        || starts_with(s, "wrs")
}

/// Resolves a one-word name.
pub fn resolve_one(a: Vec<char>) -> (r: Option<(Vec<char>, Vec<char>)>)
    ensures
        r is Some <==> resolved_one(a@) is Some,
        r is Some ==> (r->0)@ == resolved_one(a@)->0,
{
    if equals(a.as_slice(), "386bsd") {
        Some((chars_of("i386-pc"), chars_of("bsd")))
    } else {
        None
    }
}

/// Resolves an identifier of two fields.
pub fn resolve_two(a: Vec<char>, b: Vec<char>) -> (r: (Vec<char>, Vec<char>))
    ensures
        r@ == resolved_two(a@, b@),
{
    if equals(a.as_slice(), "convex") && (is_convex_small(b.as_slice()) || is_convex_large(
        b.as_slice(),
    )) {
        (join_str(b.as_slice(), "convex"), Vec::new())
    } else if equals(a.as_slice(), "decstation") && equals(b.as_slice(), "3100") {
        (chars_of("mips-dec"), Vec::new())
    } else if is_sun_os(b.as_slice()) {
        (a, b)
    } else if is_vendor_name(b.as_slice()) {
        (join(a.as_slice(), b.as_slice()), Vec::new())
    } else if starts_with(b.as_slice(), "tock") || starts_with(b.as_slice(), "zephyr") {
        (join_str(a.as_slice(), "unknown"), b)
    } else {
        (a, b)
    }
}

/// Resolves an identifier of three fields.
pub fn resolve_three(a: Vec<char>, b: Vec<char>, c: Vec<char>) -> (r: (Vec<char>, Vec<char>))
    ensures
        r@ == resolved_three(a@, b@, c@),
{
    if is_compound_os(b.as_slice(), c.as_slice()) {
        (a, join(b.as_slice(), c.as_slice()))
    } else if equals(b.as_slice(), "android") && equals(c.as_slice(), "linux") {
        (join_str(a.as_slice(), "unknown"), chars_of("linux-android"))
    } else {
        (join(a.as_slice(), b.as_slice()), c)
    }
}

/// Resolves the fields of an identifier into its basic machine and its
/// basic operating system. Only a single word can fail: one that the table
/// of one-word names does not hold.
pub fn resolve(fields: Fields) -> (r: Result<(Vec<char>, Vec<char>), Error>)
    ensures
        r is Ok <==> resolved(fields@) is Some,
        r is Ok ==> (r->Ok_0)@ == resolved(fields@)->0,
        r is Err ==> r->Err_0@ == Failure::UnknownAlias,
{
    match fields {
        Fields::One(a) => match resolve_one(a) {
            Some(pair) => Ok(pair),
            None => Err(Error::UnknownAlias),
        },
        Fields::Two(a, b) => Ok(resolve_two(a, b)),
        Fields::Three(a, b, c) => Ok(resolve_three(a, b, c)),
        Fields::Four(a, b, c, d) => Ok(
            (join(a.as_slice(), b.as_slice()), join(c.as_slice(), d.as_slice())),
        ),
    }
}

} // verus!
