//! The formatter: the canonical name of a validated target.

use crate::split::{join, joined, DELIMITER};
use crate::text::append;
use vstd::prelude::*;

verus! {

/// `s`, and behind a delimiter `part`, unless `part` is empty.
pub open spec fn with_part(s: Seq<char>, part: Seq<char>) -> Seq<char> {
    if part.len() == 0 {
        s
    } else {
        joined(s, part)
    }
}

/// The canonical name: cpu and vendor, then whichever of kernel, operating
/// system and object format is not empty, in this order, with a delimiter
/// before each.
pub open spec fn formatted(
    cpu: Seq<char>,
    vendor: Seq<char>,
    kernel: Seq<char>,
    os: Seq<char>,
    format: Seq<char>,
) -> Seq<char> {
    with_part(with_part(with_part(joined(cpu, vendor), kernel), os), format)
}

/// Adds a delimiter and `part` to `name`, unless `part` is empty.
pub fn add_part(name: &mut Vec<char>, part: &[char])
    ensures
        final(name)@ == with_part(old(name)@, part@),
{
    if part.len() != 0 {
        name.push(DELIMITER);
        append(name, part);
    }
}

/// Joins the parts of a target into its canonical name.
pub fn format(
    cpu: &[char],
    vendor: &[char],
    kernel: &[char],
    os: &[char],
    object_format: &[char],
) -> (r: Vec<char>)
    ensures
        r@ == formatted(cpu@, vendor@, kernel@, os@, object_format@),
{
    let mut name = join(cpu, vendor);
    add_part(&mut name, kernel);
    add_part(&mut name, os);
    add_part(&mut name, object_format);
    name
}

} // verus!
