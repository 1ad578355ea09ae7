//! The canonicalizer: the stages put together.

use crate::error::{Error, Failure};
use crate::formatter::formatted;
use crate::machine::{machine_of, normalize_machine};
use crate::os::{normalize_os, system_of};
use crate::resolve::{resolve, resolved};
use crate::split::{fields, local, split, Split};
use crate::text::{chars_of, copy_of, string_of};
use crate::validate::{validate, verdict};
use vstd::prelude::*;

verus! {

/// A target taken apart: what its canonical name is made of.
pub struct Target {
    pub cpu: Seq<char>,
    pub vendor: Seq<char>,
    pub kernel: Seq<char>,
    pub os: Seq<char>,
    pub format: Seq<char>,
}

/// The target that the basic machine `machine` and the basic operating
/// system `system` stand for.
pub open spec fn target_of(machine: Seq<char>, system: Seq<char>) -> Target {
    let cpu = machine_of(machine).0;
    Target {
        cpu,
        vendor: machine_of(machine).1,
        kernel: system_of(system, cpu).0,
        os: system_of(system, cpu).1,
        format: system_of(system, cpu).2,
    }
}

/// The target that the identifier `x` names, where it resolves.
pub open spec fn target(x: Seq<char>) -> Option<Target> {
    match resolved(fields(x)) {
        Some(pair) => Some(target_of(pair.0, pair.1)),
        None => None,
    }
}

/// The canonical name of the identifier `x`, or why it has none. A name
/// tagged as local is canonical as it stands. Any other is split into
/// fields, which must be four at most, resolved, normalized and validated;
/// the first failure on this way is the result.
pub open spec fn canonical(x: Seq<char>) -> Result<Seq<char>, Failure> {
    if local(x) {
        Ok(x)
    } else if fields(x).len() > 4 {
        Err(Failure::TooManyComponents)
    } else {
        match target(x) {
            None => Err(Failure::UnknownAlias),
            Some(t) => match verdict(t.cpu, t.kernel, t.os, t.format) {
                Some(failure) => Err(failure),
                None => Ok(formatted(t.cpu, t.vendor, t.kernel, t.os, t.format)),
            },
        }
    }
}

/// The canonical name of `input`, held as characters.
pub fn canonicalize(input: &[char]) -> (r: Result<Vec<char>, Error>)
    ensures
        r is Ok <==> canonical(input@) is Ok,
        r is Ok ==> Ok::<Seq<char>, Failure>(r->Ok_0@) == canonical(input@),
        r is Err ==> Err::<Seq<char>, Failure>(r->Err_0@) == canonical(input@),
{
    let fields = match split(input) {
        Ok(Split::Local) => {
            return Ok(copy_of(input));
        },
        Ok(Split::Fields(fields)) => fields,
        Err(e) => {
            return Err(e);
        },
    };
    let (machine, system) = match resolve(fields) {
        Ok(pair) => pair,
        Err(e) => {
            return Err(e);
        },
    };
    let (cpu, vendor) = normalize_machine(machine);
    let (kernel, os, object_format) = normalize_os(system, cpu.as_slice());
    match validate(cpu.as_slice(), kernel.as_slice(), os.as_slice(), object_format.as_slice()) {
        Ok(()) => Ok(
            crate::formatter::format(
                cpu.as_slice(),
                vendor.as_slice(),
                kernel.as_slice(),
                os.as_slice(),
                object_format.as_slice(),
            ),
        ),
        Err(e) => Err(e),
    }
}

/// Canonicalizes the name of a build target: `Ok` with the one spelling
/// of what `input` names, or the reason why `input` names nothing.
pub fn config_sub(input: &str) -> (r: Result<String, Error>)
    ensures
        r is Ok <==> canonical(input@) is Ok,
        r is Ok ==> Ok::<Seq<char>, Failure>(r->Ok_0@) == canonical(input@),
        r is Err ==> Err::<Seq<char>, Failure>(r->Err_0@) == canonical(input@),
{
    let text = chars_of(input);
    match canonicalize(text.as_slice()) {
        Ok(name) => Ok(string_of(name.as_slice())),
        Err(e) => Err(e),
    }
}

} // verus!
