//! What holds of every identifier: that it has an outcome, which names
//! pass as they stand, which are refused whatever they hold, and when a
//! canonical name is its own canonical name.

use crate::canonical::{canonical, target};
use crate::error::Failure;
use crate::facts::{lemma_cpu_words, lemma_system_words};
use crate::formatter::formatted;
use crate::os::object_format_name;
use crate::roundtrip::{
    lemma_accepted_cpu, lemma_accepted_is_settled, lemma_accepted_system, lemma_misread,
    lemma_settled_reads_back, reads_as_written, shown_system,
};
use crate::split::{fields, joined, lemma_cut, lemma_fields, local};
use crate::tag::lemma_name_not_local;
use crate::validate::{linux_libc, recognized_os, verdict};
use vstd::prelude::*;

verus! {

/// Every identifier has a canonical name or a failure, and the words that
/// are refused before any table is read are refused for these reasons: an
/// identifier that is not local fails with `TooManyComponents` exactly when
/// it has more than four fields, and with `UnknownAlias` exactly when it
/// has four at most and does not resolve.
pub proof fn lemma_total(x: Seq<char>)
    ensures
        canonical(x) is Ok || canonical(x) is Err,
        canonical(x) == Err::<Seq<char>, Failure>(Failure::TooManyComponents) <==> !local(x)
            && fields(x).len() > 4,
        canonical(x) == Err::<Seq<char>, Failure>(Failure::UnknownAlias) <==> !local(x)
            && fields(x).len() <= 4 && target(x) is None,
{
}

/// An identifier of five fields or more that is not tagged as local is
/// refused for its length, whatever its fields are.
pub proof fn lemma_arity_bound(x: Seq<char>)
    requires
        fields(x).len() >= 5,
        !local(x),
    ensures
        canonical(x) == Err::<Seq<char>, Failure>(Failure::TooManyComponents),
{
}

/// An identifier tagged as local is its own canonical name.
pub proof fn lemma_local_passthrough(x: Seq<char>)
    requires
        local(x),
    ensures
        canonical(x) == Ok::<Seq<char>, Failure>(x),
{
}

/// What is accepted: an identifier that is not local has a canonical name
/// exactly where it has four fields at most, resolves, and its target
/// passes the validator. The name is then the target's parts joined, the
/// cpu is `linux`, `uclinux`, `ironclad`, `none` or empty, and the target
/// names a known operating system and no object format, or an object
/// format and no operating system.
pub proof fn lemma_accepted(x: Seq<char>)
    requires
        !local(x),
    ensures
        canonical(x) is Ok <==> fields(x).len() <= 4 && target(x) is Some && verdict(
            (target(x)->0).cpu,
            (target(x)->0).kernel,
            (target(x)->0).os,
            (target(x)->0).format,
        ) is None,
        canonical(x) is Ok ==> ({
            let t = target(x)->0;
            &&& canonical(x)->Ok_0 == formatted(t.cpu, t.vendor, t.kernel, t.os, t.format)
            &&& (t.cpu == "linux"@ || t.cpu == "uclinux"@ || t.cpu == "ironclad"@ || t.cpu
                == "none"@ || t.cpu.len() == 0)
            &&& (t.format.len() == 0 ==> t.os.len() > 0 && recognized_os(t.os))
            &&& (t.format.len() > 0 ==> t.os.len() == 0 && object_format_name(t.format))
        }),
{
    if canonical(x) is Ok {
        let t = target(x)->0;
        lemma_accepted_cpu(t.cpu, t.kernel, t.os, t.format);
        lemma_accepted_system(t.cpu, t.kernel, t.os, t.format);
    }
}

/// A canonical name is its own canonical name: where `x` has the
/// canonical name `y`, and `y` is read as it was meant, `y` has the
/// canonical name `y`.
pub proof fn lemma_idempotent(x: Seq<char>)
    requires
        canonical(x) is Ok,
        local(x) || reads_as_written(x),
    ensures
        canonical(canonical(x)->Ok_0) == canonical(x),
{
    if !local(x) {
        let t = target(x)->0;
        lemma_accepted_is_settled(x);
        lemma_settled_reads_back(t);
    }
}

/// The condition of the law above leaves out no name that is its own
/// canonical name: where the canonical name of `x` is its own canonical
/// name, `x` is tagged as local or its name is read as it was meant.
pub proof fn lemma_idempotent_only_if(x: Seq<char>)
    requires
        canonical(x) is Ok,
        canonical(canonical(x)->Ok_0) == canonical(x),
    ensures
        local(x) || reads_as_written(x),
{
    if !local(x) && !reads_as_written(x) {
        lemma_name_not_local(x);
        lemma_misread(x);
    }
}

/// Whether `x` is a canonical name of four fields: each field is the part
/// of the target that stands in its place, a kernel is named, and the
/// target is accepted.
pub open spec fn canonical_four(x: Seq<char>) -> bool {
    let f = fields(x);
    &&& f.len() == 4
    &&& match target(x) {
        None => false,
        Some(t) => {
            &&& t.cpu == f[0]
            &&& t.vendor == f[1]
            &&& t.kernel == f[2]
            &&& t.kernel.len() > 0
            &&& shown_system(t) == f[3]
            &&& verdict(t.cpu, t.kernel, t.os, t.format) is None
        },
    }
}

/// A canonical name of four fields is its own canonical name.
pub proof fn lemma_four_field_passthrough(x: Seq<char>)
    requires
        canonical_four(x),
    ensures
        canonical(x) == Ok::<Seq<char>, Failure>(x),
{
    let f = fields(x);
    let t = target(x)->0;
    lemma_accepted_system(t.cpu, t.kernel, t.os, t.format);
    lemma_fields(x);
    lemma_cut(x);
    let r1 = x.skip(f[0].len() as int + 1);
    lemma_fields(r1);
    assert(fields(r1) =~= f.skip(1));
    lemma_cut(r1);
    let r2 = r1.skip(f[1].len() as int + 1);
    lemma_fields(r2);
    assert(fields(r2) =~= f.skip(2));
    lemma_cut(r2);
    let r3 = r2.skip(f[2].len() as int + 1);
    lemma_fields(r3);
    assert(fields(r3) =~= f.skip(3));
    assert(r3 == f[3]);
    assert(x == joined(f[0], joined(f[1], joined(f[2], f[3]))));
    assert(formatted(t.cpu, t.vendor, t.kernel, t.os, t.format) =~= x);
}

/// On the cpu `linux`, without an object format, an operating system
/// that is none of the C libraries of Linux is never accepted. Where it is
/// a known operating system other than `ghcjs` and needs no Windows, the
/// failure names the kernel and the operating system: the kernel does not
/// support one that is a kernel's library, and is not known to work with
/// any other.
pub proof fn lemma_linux_needs_libc(cpu: Seq<char>, kernel: Seq<char>, os: Seq<char>)
    requires
        cpu == "linux"@,
        !linux_libc(os),
    ensures
        verdict(cpu, kernel, os, Seq::empty()) is Some,
        recognized_os(os) && os != "ghcjs"@ && !"msvc"@.is_prefix_of(os) ==> verdict(
            cpu,
            kernel,
            os,
            Seq::empty(),
        ) == Some(
            if "kernel"@.is_prefix_of(os) {
                Failure::KernelDoesNotSupportOs(kernel, os)
            } else {
                Failure::KernelNotKnownToWorkWithOs(kernel, os)
            },
        ),
{
    lemma_cpu_words();
    lemma_system_words();
}

/// So for identifiers: one that is not local and names the cpu `linux`,
/// no object format and an operating system that is none of the C
/// libraries of Linux has no canonical name, and where that operating
/// system is known, is not `ghcjs` and needs no Windows, the failure names
/// the kernel and the operating system.
pub proof fn lemma_linux_identifier_needs_libc(x: Seq<char>)
    requires
        !local(x),
        target(x) is Some,
        (target(x)->0).cpu == "linux"@,
        (target(x)->0).format.len() == 0,
        !linux_libc((target(x)->0).os),
    ensures
        canonical(x) is Err,
        ({
            let t = target(x)->0;
            fields(x).len() <= 4 && recognized_os(t.os) && t.os != "ghcjs"@ && !"msvc"@.is_prefix_of(
                t.os,
            ) ==> canonical(x) == Err::<Seq<char>, Failure>(
                if "kernel"@.is_prefix_of(t.os) {
                    Failure::KernelDoesNotSupportOs(t.kernel, t.os)
                } else {
                    Failure::KernelNotKnownToWorkWithOs(t.kernel, t.os)
                },
            )
        }),
{
    let t = target(x)->0;
    assert(t.format =~= Seq::empty());
    lemma_linux_needs_libc(t.cpu, t.kernel, t.os);
}

} // verus!
