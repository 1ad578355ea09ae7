//! The cpu and vendor normalizer: from the basic machine to the cpu and
//! the vendor that the canonical name shows.

use crate::shape::{intel_x86, is_intel_x86};
use crate::split::{cut, head_len, is_plain};
use crate::text::{chars_of, equals, starts_with};
use vstd::prelude::*;

verus! {

/// The cpu and the vendor that the basic machine `m` stands for, before
/// the vendor's own aliases are looked at. A few machines are known by
/// name; any other is cut at its first delimiter, and one without a
/// delimiter is of unknown make.
pub open spec fn machine_parts(m: Seq<char>) -> (Seq<char>, Seq<char>) {
    if m == "w89k"@ {
        ("hppa1.1"@, "winbond"@)
    } else if intel_x86(m) || m == "x86_64"@ {
        (m, "pc"@)
    } else if m == "pc98"@ {
        ("i386"@, "pc"@)
    } else if m == "x64"@ || m == "amd64"@ {
        ("x86_64"@, "pc"@)
    } else if is_plain(m) {
        (m, "unknown"@)
    } else {
        (m.take(head_len(m) as int), m.skip(head_len(m) as int + 1))
    }
}

/// The one spelling of the vendor `v`.
pub open spec fn vendor_alias(v: Seq<char>) -> Seq<char> {
    if "digital"@.is_prefix_of(v) {
        "dec"@
    } else if "commodore"@.is_prefix_of(v) {
        "cbm"@
    } else {
        v
    }
}

/// The cpu and the vendor of the basic machine `m`.
pub open spec fn machine_of(m: Seq<char>) -> (Seq<char>, Seq<char>) {
    (machine_parts(m).0, vendor_alias(machine_parts(m).1))
}

/// Rewrites a vendor to its one spelling.
pub fn canonical_vendor(v: Vec<char>) -> (r: Vec<char>)
    ensures
        r@ == vendor_alias(v@),
{
    if starts_with(v.as_slice(), "digital") {
        chars_of("dec")
    } else if starts_with(v.as_slice(), "commodore") {
        chars_of("cbm")
    } else {
        v
    }
}

/// Takes the basic machine apart into cpu and vendor.
pub fn machine_split(m: Vec<char>) -> (r: (Vec<char>, Vec<char>))
    ensures
        r@ == machine_parts(m@),
{
    if equals(m.as_slice(), "w89k") {
        (chars_of("hppa1.1"), chars_of("winbond"))
    } else if is_intel_x86(m.as_slice()) || equals(m.as_slice(), "x86_64") {
        (m, chars_of("pc"))
    } else if equals(m.as_slice(), "pc98") {
        (chars_of("i386"), chars_of("pc"))
    } else if equals(m.as_slice(), "x64") || equals(m.as_slice(), "amd64") {
        (chars_of("x86_64"), chars_of("pc"))
    } else {
        match cut(m.as_slice()) {
            (cpu, Some(vendor)) => (cpu, vendor),
            (cpu, None) => (cpu, chars_of("unknown")),
        }
    }
}

/// The cpu and the vendor of the basic machine `m`.
pub fn normalize_machine(m: Vec<char>) -> (r: (Vec<char>, Vec<char>))
    ensures
        r@ == machine_of(m@),
{
    let (cpu, vendor) = machine_split(m);
    (cpu, canonical_vendor(vendor))
}

} // verus!
