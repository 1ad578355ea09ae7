//! How a canonical name reads back: what the stages make of the parts
//! that an accepted target is written with.

use crate::canonical::{canonical, target, target_of, Target};
use crate::facts::{
    lemma_alias_words, lemma_compound_words, lemma_cpu_words, lemma_kernel_words,
    lemma_machine_words, lemma_plain_words, lemma_resolve_words, lemma_rewritten_words,
    lemma_system_words,
};
use crate::formatter::formatted;
use crate::machine::{machine_of, machine_parts, vendor_alias};
use crate::os::{kernel_and_os, known_kernel, object_format_name, os_and_format, system_of};
use crate::resolve::{compound_os, resolved};
use crate::shape::intel_x86;
use crate::split::{
    fields, head_len, is_plain, joined, lemma_cut, lemma_fields, lemma_fields_joined,
    lemma_fields_plain, lemma_head_len, lemma_joined, local, DELIMITER,
};
use crate::validate::{recognized_os, verdict};
use vstd::prelude::*;

verus! {

/// Only five cpus are ever accepted.
pub proof fn lemma_accepted_cpu(cpu: Seq<char>, kernel: Seq<char>, os: Seq<char>, format: Seq<char>)
    requires
        verdict(cpu, kernel, os, format) is None,
    ensures
        cpu == "linux"@ || cpu == "uclinux"@ || cpu == "ironclad"@ || cpu == "none"@ || cpu.len()
            == 0,
        !"arm"@.is_prefix_of(cpu),
{
    lemma_cpu_words();
}

/// An accepted target names a known operating system and no object
/// format, or an object format and no operating system.
pub proof fn lemma_accepted_system(
    cpu: Seq<char>,
    kernel: Seq<char>,
    os: Seq<char>,
    format: Seq<char>,
)
    requires
        verdict(cpu, kernel, os, format) is None,
    ensures
        format.len() == 0 ==> os.len() > 0 && recognized_os(os),
        format.len() > 0 ==> os.len() == 0 && object_format_name(format),
{
}

/// The second pass leaves a known operating system as the first pass
/// gave it: no alias is rewritten into one, but for `eabi` on an ARM cpu.
pub proof fn lemma_known_os_was_given(given: Seq<char>, cpu: Seq<char>)
    requires
        recognized_os(os_and_format(given, cpu).0),
        !"arm"@.is_prefix_of(cpu),
    ensures
        os_and_format(given, cpu) == (given, Seq::<char>::empty()),
{
    lemma_alias_words();
    lemma_rewritten_words();
    lemma_system_words();
}

/// The second pass reads an object format that it has written as that
/// object format again.
pub proof fn lemma_format_reads_back(given: Seq<char>, cpu: Seq<char>)
    requires
        os_and_format(given, cpu).0.len() == 0,
        object_format_name(os_and_format(given, cpu).1),
    ensures
        os_and_format(os_and_format(given, cpu).1, cpu) == os_and_format(given, cpu),
        os_and_format(given, cpu).1 == given || os_and_format(given, cpu).1 == "elf"@,
{
    lemma_alias_words();
    lemma_rewritten_words();
    lemma_system_words();
}

/// No known operating system and no object format begins as a known
/// kernel does.
pub proof fn lemma_system_is_no_kernel(s: Seq<char>)
    requires
        recognized_os(s) || object_format_name(s),
    ensures
        !known_kernel(s),
        s != "linux"@,
        s.len() > 0,
{
    lemma_kernel_words();
    lemma_system_words();
}

/// A word without delimiters begins a joined text exactly when it begins
/// the first part of it.
pub proof fn lemma_prefix_of_joined(p: Seq<char>, a: Seq<char>, b: Seq<char>)
    requires
        is_plain(p),
    ensures
        p.is_prefix_of(joined(a, b)) <==> p.is_prefix_of(a),
{
    let s = joined(a, b);
    if p.len() <= a.len() {
        assert(s.subrange(0, p.len() as int) =~= a.subrange(0, p.len() as int));
    } else {
        if p.is_prefix_of(s) {
            assert(s.subrange(0, p.len() as int)[a.len() as int] == DELIMITER);
        }
    }
}

/// Whether a joined text begins as a known kernel does is decided by its
/// first part, whatever follows it, unless the text is `os2-emx`.
pub proof fn lemma_kernel_of_joined(a: Seq<char>, b: Seq<char>, c: Seq<char>)
    requires
        !known_kernel(joined(a, b)),
        c != "emx"@ || a != "os2"@,
        is_plain(a),
    ensures
        !known_kernel(joined(a, c)),
{
    lemma_plain_words();
    lemma_kernel_words();
    lemma_prefix_of_joined("gnu/linux"@, a, b);
    lemma_prefix_of_joined("gnu/linux"@, a, c);
    lemma_prefix_of_joined("nto"@, a, b);
    lemma_prefix_of_joined("nto"@, a, c);
    lemma_prefix_of_joined("ironclad"@, a, b);
    lemma_prefix_of_joined("ironclad"@, a, c);
    lemma_prefix_of_joined("linux"@, a, b);
    lemma_prefix_of_joined("linux"@, a, c);
    lemma_prefix_of_joined("managarm"@, a, b);
    lemma_prefix_of_joined("managarm"@, a, c);
    if "nto-qnx"@.is_prefix_of(joined(a, c)) {
        assert("nto"@ =~= "nto-qnx"@.subrange(0, 3));
        assert("nto"@ =~= joined(a, c).subrange(0, 7).subrange(0, 3));
        assert("nto"@.is_prefix_of(joined(a, c)));
    }
    if joined(a, c) == "os2-emx"@ {
        lemma_joined(a, c);
        lemma_joined("os2"@, "emx"@);
    }
}

/// The first pass cuts a text without a known kernel at its first
/// delimiter.
pub proof fn lemma_first_pass(b: Seq<char>)
    requires
        !known_kernel(b),
    ensures
        is_plain(kernel_and_os(b).0),
        is_plain(b) ==> kernel_and_os(b) == (Seq::<char>::empty(), b),
        !is_plain(b) ==> b == joined(kernel_and_os(b).0, kernel_and_os(b).1),
{
    if !is_plain(b) {
        lemma_cut(b);
    }
}

/// The first pass takes a joined text without a known kernel apart into
/// what it was joined of.
pub proof fn lemma_first_pass_of_joined(kernel: Seq<char>, os: Seq<char>)
    requires
        is_plain(kernel),
        !known_kernel(joined(kernel, os)),
    ensures
        kernel_and_os(joined(kernel, os)) == (kernel, os),
{
    lemma_joined(kernel, os);
}

/// The cpu and the vendor of a joined text are what it was joined of,
/// where the cpu holds no delimiter.
pub proof fn lemma_machine_of_joined(cpu: Seq<char>, vendor: Seq<char>)
    requires
        is_plain(cpu),
    ensures
        machine_parts(joined(cpu, vendor)) == (cpu, vendor),
{
    let m = joined(cpu, vendor);
    lemma_joined(cpu, vendor);
    lemma_plain_words();
    assert(!intel_x86(m)) by {
        if intel_x86(m) {
            assert(m[cpu.len() as int] == DELIMITER);
        }
    }
}

/// A vendor's one spelling is spelled that way.
pub proof fn lemma_vendor_alias(v: Seq<char>)
    ensures
        vendor_alias(vendor_alias(v)) == vendor_alias(v),
        is_plain(v) ==> is_plain(vendor_alias(v)),
{
    lemma_machine_words();
    lemma_plain_words();
}

/// Whether `s` holds one delimiter at most.
pub open spec fn simple(s: Seq<char>) -> bool {
    is_plain(s) || is_plain(s.skip(head_len(s) as int + 1))
}

/// Two words without delimiters, joined, hold one delimiter.
pub proof fn lemma_simple_joined(a: Seq<char>, b: Seq<char>)
    requires
        is_plain(a),
        is_plain(b),
    ensures
        simple(joined(a, b)),
{
    lemma_joined(a, b);
}

/// The cpu and the vendor of a basic machine with one delimiter at most
/// hold none.
pub proof fn lemma_machine_is_plain(m: Seq<char>)
    requires
        simple(m),
    ensures
        is_plain(machine_of(m).0),
        is_plain(machine_of(m).1),
{
    lemma_plain_words();
    lemma_head_len(m);
    lemma_vendor_alias(machine_parts(m).1);
}

/// The basic machine and the basic operating system of fields without
/// delimiters hold one delimiter each at most, but for the Android
/// exception, whose basic operating system begins with `linux`.
pub proof fn lemma_resolved_is_simple(f: Seq<Seq<char>>)
    requires
        1 <= f.len() <= 4,
        forall|i: int| 0 <= i < f.len() ==> is_plain(#[trigger] f[i]),
        resolved(f) is Some,
    ensures
        simple((resolved(f)->0).0),
        simple((resolved(f)->0).1) || known_kernel((resolved(f)->0).1),
{
    lemma_plain_words();
    lemma_resolve_words();
    lemma_kernel_words();
    assert(is_plain(f[0]));
    if f.len() >= 2 {
        assert(is_plain(f[1]));
        lemma_simple_joined(f[0], f[1]);
        lemma_simple_joined(f[1], "convex"@);
        lemma_simple_joined(f[0], "unknown"@);
        lemma_simple_joined("mips"@, "dec"@);
    }
    if f.len() >= 3 {
        assert(is_plain(f[2]));
        lemma_simple_joined(f[1], f[2]);
    }
    if f.len() == 4 {
        assert(is_plain(f[3]));
        lemma_simple_joined(f[2], f[3]);
    }
    if f.len() == 1 {
        lemma_simple_joined("i386"@, "pc"@);
    }
    assert(is_plain(Seq::<char>::empty()));
}

/// What a target shows of its system: its object format, or else its
/// operating system.
pub open spec fn shown_system(t: Target) -> Seq<char> {
    if t.format.len() > 0 {
        t.format
    } else {
        t.os
    }
}

/// Whether the name written for `x` is read as it was meant. It is not
/// where the kernel of `x` was known by how its basic operating system
/// begins, for then the first pass wrote an operating system beside it
/// and, reading the two, would write one more. Nor is it where `x` names
/// no kernel and its vendor, with the system behind it, looks like a
/// kernel with its system.
pub open spec fn reads_as_written(x: Seq<char>) -> bool {
    match resolved(fields(x)) {
        None => true,
        Some(pair) => {
            let t = target_of(pair.0, pair.1);
            &&& !known_kernel(pair.1)
            &&& !(t.kernel.len() == 0 && compound_os(t.vendor, shown_system(t)))
        },
    }
}

/// Whether the stages, given the parts of `t` joined, find these parts
/// again once they have taken the joints for what they are: none holds a
/// delimiter, the cpu and the vendor are normal, and so are the kernel and
/// the system that is shown.
pub open spec fn readable(t: Target) -> bool {
    let last = shown_system(t);
    &&& is_plain(t.cpu)
    &&& is_plain(t.vendor)
    &&& is_plain(t.kernel)
    &&& is_plain(last)
    &&& last.len() > 0
    &&& last != "linux"@
    &&& (t.os.len() == 0 || t.format.len() == 0)
    &&& machine_of(joined(t.cpu, t.vendor)) == (t.cpu, t.vendor)
    &&& system_of(
        if t.kernel.len() == 0 {
            last
        } else {
            joined(t.kernel, last)
        },
        t.cpu,
    ) == (t.kernel, t.os, t.format)
}

/// Whether the name of `t` is read as `t`: its parts are readable, and
/// where it names no kernel, its vendor is not taken for one.
pub open spec fn settled(t: Target) -> bool {
    readable(t) && !(t.kernel.len() == 0 && compound_os(t.vendor, shown_system(t)))
}

/// The name of a settled target has that target.
pub proof fn lemma_settled_reads_back(t: Target)
    requires
        settled(t),
    ensures
        fields(formatted(t.cpu, t.vendor, t.kernel, t.os, t.format)).len() <= 4,
        target(formatted(t.cpu, t.vendor, t.kernel, t.os, t.format)) == Some(t),
{
    let y = formatted(t.cpu, t.vendor, t.kernel, t.os, t.format);
    let last = shown_system(t);
    let m = joined(t.cpu, t.vendor);
    lemma_fields(last);
    if t.kernel.len() == 0 {
        assert(y =~= joined(t.cpu, joined(t.vendor, last)));
        lemma_fields_joined(t.cpu, joined(t.vendor, last));
        lemma_fields_joined(t.vendor, last);
        assert(fields(y) =~= seq![t.cpu, t.vendor, last]);
        assert(resolved(fields(y)) == Some((m, last)));
    } else {
        let b = joined(t.kernel, last);
        assert(y =~= joined(t.cpu, joined(t.vendor, b)));
        lemma_fields_joined(t.cpu, joined(t.vendor, b));
        lemma_fields_joined(t.vendor, b);
        lemma_fields_joined(t.kernel, last);
        assert(fields(y) =~= seq![t.cpu, t.vendor, t.kernel, last]);
        assert(resolved(fields(y)) == Some((m, b)));
    }
}

/// `elf` is a plain word and not `emx`.
proof fn lemma_elf()
    ensures
        is_plain("elf"@),
        "elf"@ != "emx"@,
{
    lemma_plain_words();
    lemma_kernel_words();
    lemma_rewritten_words();
}

/// The fields of an accepted identifier hold no delimiter, and neither do
/// the cpu and the vendor of its target.
proof fn lemma_accepted_machine(x: Seq<char>)
    requires
        canonical(x) is Ok,
        !local(x),
    ensures
        resolved(fields(x)) is Some,
        simple((resolved(fields(x))->0).1) || known_kernel((resolved(fields(x))->0).1),
        is_plain((target(x)->0).cpu),
        is_plain((target(x)->0).vendor),
        machine_of(joined((target(x)->0).cpu, (target(x)->0).vendor)) == (
            (target(x)->0).cpu,
            (target(x)->0).vendor,
        ),
{
    let f = fields(x);
    lemma_fields(x);
    let m = (resolved(f)->0).0;
    let t = target(x)->0;
    assert forall|i: int| 0 <= i < f.len() implies is_plain(#[trigger] f[i]) by {
        lemma_fields_plain(x, i);
    }
    lemma_resolved_is_simple(f);
    lemma_machine_is_plain(m);
    lemma_machine_of_joined(t.cpu, t.vendor);
    lemma_vendor_alias(machine_parts(m).1);
}

/// The target of an accepted identifier whose kernel the first pass did
/// not know is readable.
pub proof fn lemma_accepted_is_readable(x: Seq<char>)
    requires
        canonical(x) is Ok,
        !local(x),
        !known_kernel((resolved(fields(x))->0).1),
    ensures
        target(x) is Some,
        readable(target(x)->0),
{
    let b = (resolved(fields(x))->0).1;
    let t = target(x)->0;
    lemma_accepted_machine(x);
    lemma_accepted_cpu(t.cpu, t.kernel, t.os, t.format);
    lemma_accepted_system(t.cpu, t.kernel, t.os, t.format);
    lemma_first_pass(b);
    let given = kernel_and_os(b).1;
    assert(is_plain(given));
    lemma_elf();
    if t.format.len() == 0 {
        lemma_known_os_was_given(given, t.cpu);
    } else {
        lemma_format_reads_back(given, t.cpu);
    }
    let last = shown_system(t);
    assert(os_and_format(last, t.cpu) == (t.os, t.format));
    lemma_system_is_no_kernel(last);
    if t.kernel.len() == 0 {
        lemma_first_pass(last);
        assert(t.kernel =~= Seq::empty());
    } else {
        if last != given {
            lemma_kernel_of_joined(t.kernel, given, last);
        }
        lemma_first_pass_of_joined(t.kernel, last);
    }
}

/// The target of an accepted identifier that is read as it was meant is
/// settled.
pub proof fn lemma_accepted_is_settled(x: Seq<char>)
    requires
        canonical(x) is Ok,
        !local(x),
        reads_as_written(x),
    ensures
        target(x) is Some,
        settled(target(x)->0),
{
    lemma_accepted_machine(x);
    lemma_accepted_is_readable(x);
}

/// Where the first pass knows the kernel and the target is accepted, the
/// kernel is `linux`, and the operating system is what the first pass
/// wrote for it: `gnu` and what followed the kernel's name.
pub proof fn lemma_known_kernel_is_linux(b: Seq<char>, cpu: Seq<char>)
    requires
        known_kernel(b),
        !"arm"@.is_prefix_of(cpu),
        ({
            let s = system_of(b, cpu);
            (s.2.len() == 0 && recognized_os(s.1)) || (s.1.len() == 0 && object_format_name(s.2))
        }),
    ensures
        system_of(b, cpu).0 == "linux"@,
        "gnu"@.is_prefix_of(system_of(b, cpu).1),
        system_of(b, cpu).1 == "gnu"@ + b.skip(5) || system_of(b, cpu).1 == "gnu"@ + b.skip(9),
        b.len() >= 5,
        system_of(b, cpu).1 == "gnu"@ + b.skip(9) ==> b.len() >= 9,
        system_of(b, cpu).2.len() == 0,
{
    lemma_kernel_words();
    lemma_alias_words();
    lemma_system_words();
}

/// Read behind the kernel `linux`, an operating system that begins with
/// `gnu` gets one more `gnu` before it, and is none that is known.
pub proof fn lemma_linux_writes_gnu(os: Seq<char>, cpu: Seq<char>)
    requires
        "gnu"@.is_prefix_of(os),
    ensures
        system_of(joined("linux"@, os), cpu).1.len() > 0,
        !recognized_os(system_of(joined("linux"@, os), cpu).1),
{
    lemma_kernel_words();
    lemma_alias_words();
    lemma_system_words();
    let b = joined("linux"@, os);
    assert("linux"@.is_prefix_of(b)) by {
        assert(b.subrange(0, 5) =~= "linux"@);
    }
    assert(b[0] == 'l');
    let given = kernel_and_os(b).1;
    assert(given =~= "gnu"@ + seq![DELIMITER] + os);
    assert(given[0] == 'g' && given[1] == 'n' && given[2] == 'u' && given[3] == DELIMITER);
}

/// `linux` holds no delimiter, and what begins with `gnu` is not empty.
proof fn lemma_linux_gnu(os: Seq<char>)
    ensures
        is_plain("linux"@),
        "linux"@.len() > 0,
        "gnu"@.is_prefix_of(os) ==> os.len() > 0,
{
    lemma_plain_words();
    lemma_kernel_words();
}

/// The name of a target with the kernel `linux` and an operating system
/// that begins with `gnu` has too many fields, or reads as a target that
/// is refused.
pub proof fn lemma_linux_is_written_twice(t: Target)
    requires
        is_plain(t.cpu),
        is_plain(t.vendor),
        t.kernel == "linux"@,
        "gnu"@.is_prefix_of(t.os),
        t.format.len() == 0,
    ensures
        ({
            let y = formatted(t.cpu, t.vendor, t.kernel, t.os, t.format);
            fields(y).len() > 4 || match target(y) {
                None => false,
                Some(r) => verdict(r.cpu, r.kernel, r.os, r.format) is Some,
            }
        }),
{
    let y = formatted(t.cpu, t.vendor, t.kernel, t.os, t.format);
    lemma_linux_gnu(t.os);
    let rest = joined("linux"@, t.os);
    assert(y =~= joined(t.cpu, joined(t.vendor, rest)));
    lemma_fields_joined(t.cpu, joined(t.vendor, rest));
    lemma_fields_joined(t.vendor, rest);
    lemma_fields_joined("linux"@, t.os);
    lemma_fields(t.os);
    if is_plain(t.os) {
        assert(fields(y) =~= seq![t.cpu, t.vendor, "linux"@, t.os]);
        assert(resolved(fields(y)) == Some((joined(t.cpu, t.vendor), rest)));
        lemma_linux_writes_gnu(t.os, machine_of(joined(t.cpu, t.vendor)).0);
    } else {
        lemma_fields(t.os.skip(head_len(t.os) as int + 1));
    }
}

/// An accepted cpu, taken alone for a basic machine, is of unknown make,
/// and `unknown` with whatever follows is no kernel with its system.
pub proof fn lemma_accepted_cpu_alone(
    cpu: Seq<char>,
    kernel: Seq<char>,
    os: Seq<char>,
    format: Seq<char>,
    last: Seq<char>,
)
    requires
        verdict(cpu, kernel, os, format) is None,
    ensures
        machine_of(cpu) == (cpu, "unknown"@),
        is_plain("unknown"@),
        !compound_os("unknown"@, last),
{
    lemma_cpu_words();
    lemma_machine_words();
    lemma_plain_words();
    lemma_compound_words();
}

/// The name of a readable, accepted target without kernel whose vendor
/// looks like a kernel reads as a target of unknown make, whose name is
/// another.
pub proof fn lemma_vendor_is_read_as_kernel(t: Target)
    requires
        readable(t),
        verdict(t.cpu, t.kernel, t.os, t.format) is None,
        t.kernel.len() == 0,
        compound_os(t.vendor, shown_system(t)),
    ensures
        ({
            let y = formatted(t.cpu, t.vendor, t.kernel, t.os, t.format);
            match target(y) {
                None => false,
                Some(r) => verdict(r.cpu, r.kernel, r.os, r.format) is Some || formatted(
                    r.cpu,
                    r.vendor,
                    r.kernel,
                    r.os,
                    r.format,
                ) != y,
            }
        }),
{
    let y = formatted(t.cpu, t.vendor, t.kernel, t.os, t.format);
    let last = shown_system(t);
    let rest = joined(t.vendor, last);
    assert(y =~= joined(t.cpu, rest));
    lemma_fields_joined(t.cpu, rest);
    lemma_fields_joined(t.vendor, last);
    lemma_fields(last);
    assert(fields(y) =~= seq![t.cpu, t.vendor, last]);
    assert(resolved(fields(y)) == Some((t.cpu, rest)));
    lemma_accepted_cpu_alone(t.cpu, t.kernel, t.os, t.format, last);
    let r = target_of(t.cpu, rest);
    assert(target(y) == Some(r));
    if verdict(r.cpu, r.kernel, r.os, r.format) is None {
        lemma_accepted_system(r.cpu, r.kernel, r.os, r.format);
        let y2 = formatted(r.cpu, r.vendor, r.kernel, r.os, r.format);
        let last2 = shown_system(r);
        let rest2 = if r.kernel.len() == 0 {
            last2
        } else {
            joined(r.kernel, last2)
        };
        assert(y2 =~= joined(t.cpu, joined("unknown"@, rest2)));
        if y2 == y {
            lemma_joined(t.cpu, rest);
            lemma_joined(t.cpu, joined("unknown"@, rest2));
            lemma_joined(t.vendor, last);
            lemma_joined("unknown"@, rest2);
            assert(t.vendor == "unknown"@);
        }
    }
}

/// Where the name written for an accepted `x` is not read as it was
/// meant, and is not tagged as local, it reads as another target, as a
/// target that is refused, or as nothing for its length.
pub proof fn lemma_misread(x: Seq<char>)
    requires
        canonical(x) is Ok,
        !local(x),
        !reads_as_written(x),
    ensures
        local(canonical(x)->Ok_0) || canonical(canonical(x)->Ok_0) != canonical(x),
{
    let b = (resolved(fields(x))->0).1;
    let t = target(x)->0;
    lemma_accepted_machine(x);
    lemma_accepted_cpu(t.cpu, t.kernel, t.os, t.format);
    lemma_accepted_system(t.cpu, t.kernel, t.os, t.format);
    if known_kernel(b) {
        lemma_known_kernel_is_linux(b, t.cpu);
        lemma_linux_is_written_twice(t);
    } else {
        lemma_accepted_is_readable(x);
        lemma_vendor_is_read_as_kernel(t);
    }
}

} // verus!
