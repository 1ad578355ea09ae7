//! The tag `local` is never made by canonicalizing: the parts of a
//! canonical name are pieces of the identifier or words of the table, and
//! none of these words holds the tag.

use crate::canonical::{canonical, target};
use crate::formatter::with_part;
use crate::machine::machine_of;
use crate::os::{kernel_and_os, known_kernel};
use crate::resolve::resolved;
use crate::roundtrip::{
    lemma_accepted_cpu, lemma_accepted_system, lemma_first_pass,
    lemma_format_reads_back, lemma_known_kernel_is_linux, lemma_known_os_was_given,
};
use crate::split::{
    fields, head_len, is_plain, joined, lemma_fields, lemma_fields_not_local, lemma_head_len,
    lemma_occurs_in_joined, local,
};
use crate::text::{adjacent, lemma_occurs_behind, lemma_occurs_in_part};
use vstd::prelude::*;

verus! {

/// The tag holds no delimiter and begins with `lo`; the words that are
/// written into names do not hold it, and nothing that begins with `gnu`
/// holds it but behind the `gnu`.
proof fn lemma_words_not_local()
    ensures
        is_plain("local"@),
        "local"@.len() == 5,
        "local"@[0] == 'l',
        "local"@[1] == 'o',
        "gnu"@.len() == 3,
        "gnu"@[2] == 'u',
        !adjacent("gnu"@, 'l', 'o'),
        !local(Seq::<char>::empty()),
        !local("unknown"@),
        !local("convex"@),
        !local("bsd"@),
        !local("dec"@),
        !local("cbm"@),
        !local("pc"@),
        !local("winbond"@),
        !local("linux"@),
        !local("uclinux"@),
        !local("ironclad"@),
        !local("none"@),
        !local("elf"@),
        !local("gnu"@),
        !local("mips-dec"@),
        !local("i386-pc"@),
        !local("linux-android"@),
{
    reveal_strlit("local");
    reveal_strlit("unknown");
    reveal_strlit("convex");
    reveal_strlit("bsd");
    reveal_strlit("dec");
    reveal_strlit("cbm");
    reveal_strlit("pc");
    reveal_strlit("winbond");
    reveal_strlit("linux");
    reveal_strlit("uclinux");
    reveal_strlit("ironclad");
    reveal_strlit("none");
    reveal_strlit("elf");
    reveal_strlit("gnu");
    reveal_strlit("mips-dec");
    reveal_strlit("i386-pc");
    reveal_strlit("linux-android");
    reveal_with_fuel(head_len, 8);
    reveal_with_fuel(adjacent, 16);
    lemma_head_len("local"@);
    let none = Seq::<char>::empty();
    if local("unknown"@) {
        assert("unknown"@ + none =~= "unknown"@);
        lemma_occurs_behind("local"@, "unknown"@, none);
    }
    if local("convex"@) {
        assert("convex"@ + none =~= "convex"@);
        lemma_occurs_behind("local"@, "convex"@, none);
    }
    if local("bsd"@) {
        assert("bsd"@ + none =~= "bsd"@);
        lemma_occurs_behind("local"@, "bsd"@, none);
    }
    if local("dec"@) {
        assert("dec"@ + none =~= "dec"@);
        lemma_occurs_behind("local"@, "dec"@, none);
    }
    if local("cbm"@) {
        assert("cbm"@ + none =~= "cbm"@);
        lemma_occurs_behind("local"@, "cbm"@, none);
    }
    if local("pc"@) {
        assert("pc"@ + none =~= "pc"@);
        lemma_occurs_behind("local"@, "pc"@, none);
    }
    if local("winbond"@) {
        assert("winbond"@ + none =~= "winbond"@);
        lemma_occurs_behind("local"@, "winbond"@, none);
    }
    if local("linux"@) {
        assert("linux"@ + none =~= "linux"@);
        lemma_occurs_behind("local"@, "linux"@, none);
    }
    if local("uclinux"@) {
        assert("uclinux"@ + none =~= "uclinux"@);
        lemma_occurs_behind("local"@, "uclinux"@, none);
    }
    if local("ironclad"@) {
        assert("ironclad"@ + none =~= "ironclad"@);
        lemma_occurs_behind("local"@, "ironclad"@, none);
    }
    if local("none"@) {
        assert("none"@ + none =~= "none"@);
        lemma_occurs_behind("local"@, "none"@, none);
    }
    if local("elf"@) {
        assert("elf"@ + none =~= "elf"@);
        lemma_occurs_behind("local"@, "elf"@, none);
    }
    if local("gnu"@) {
        assert("gnu"@ + none =~= "gnu"@);
        lemma_occurs_behind("local"@, "gnu"@, none);
    }
    if local("mips-dec"@) {
        assert("mips-dec"@ + none =~= "mips-dec"@);
        lemma_occurs_behind("local"@, "mips-dec"@, none);
    }
    if local("i386-pc"@) {
        assert("i386-pc"@ + none =~= "i386-pc"@);
        lemma_occurs_behind("local"@, "i386-pc"@, none);
    }
    if local("linux-android"@) {
        assert("linux-android"@ + none =~= "linux-android"@);
        lemma_occurs_behind("local"@, "linux-android"@, none);
    }
}

/// Two texts that are not local, joined, are not local.
proof fn lemma_joined_not_local(a: Seq<char>, b: Seq<char>)
    requires
        !local(a),
        !local(b),
    ensures
        !local(joined(a, b)),
{
    lemma_words_not_local();
    if local(joined(a, b)) {
        lemma_occurs_in_joined("local"@, a, b);
    }
}

/// The basic machine and the basic operating system of fields that are
/// not local are not local.
proof fn lemma_resolved_not_local(f: Seq<Seq<char>>)
    requires
        1 <= f.len() <= 4,
        forall|i: int| 0 <= i < f.len() ==> !local(#[trigger] f[i]),
        resolved(f) is Some,
    ensures
        !local((resolved(f)->0).0),
        !local((resolved(f)->0).1),
{
    lemma_words_not_local();
    assert(!local(f[0]));
    if f.len() >= 2 {
        assert(!local(f[1]));
        lemma_joined_not_local(f[0], f[1]);
        lemma_joined_not_local(f[1], "convex"@);
        lemma_joined_not_local(f[0], "unknown"@);
    }
    if f.len() >= 3 {
        assert(!local(f[2]));
        lemma_joined_not_local(f[1], f[2]);
    }
    if f.len() == 4 {
        assert(!local(f[3]));
        lemma_joined_not_local(f[2], f[3]);
    }
}

/// The vendor of a basic machine that is not local is not local.
proof fn lemma_vendor_not_local(m: Seq<char>)
    requires
        !local(m),
    ensures
        !local(machine_of(m).1),
{
    lemma_words_not_local();
    lemma_head_len(m);
    let n = head_len(m) as int;
    if !is_plain(m) && local(m.skip(n + 1)) {
        lemma_occurs_in_part("local"@, m, n + 1, m.len() as int);
    }
}

/// The kernel and the operating system that the first pass cuts a text
/// into are not local where the text is not.
proof fn lemma_cut_not_local(b: Seq<char>)
    requires
        !local(b),
        !known_kernel(b),
    ensures
        !local(kernel_and_os(b).0),
        !local(kernel_and_os(b).1),
{
    lemma_words_not_local();
    lemma_head_len(b);
    let n = head_len(b) as int;
    if !is_plain(b) {
        if local(b.skip(n + 1)) {
            lemma_occurs_in_part("local"@, b, n + 1, b.len() as int);
        }
        if local(b.take(n)) {
            lemma_occurs_in_part("local"@, b, 0, n);
        }
    }
}

/// A part that is not local, added to a name that is not local, gives a
/// name that is not local.
proof fn lemma_with_part_not_local(s: Seq<char>, part: Seq<char>)
    requires
        !local(s),
        !local(part),
    ensures
        !local(with_part(s, part)),
{
    lemma_joined_not_local(s, part);
}

/// The canonical name of an identifier that is not tagged as local is not
/// tagged as local.
pub proof fn lemma_name_not_local(x: Seq<char>)
    requires
        canonical(x) is Ok,
        !local(x),
    ensures
        !local(canonical(x)->Ok_0),
{
    let f = fields(x);
    lemma_fields(x);
    let m = (resolved(f)->0).0;
    let b = (resolved(f)->0).1;
    let t = target(x)->0;
    assert forall|i: int| 0 <= i < f.len() implies !local(#[trigger] f[i]) by {
        lemma_fields_not_local(x, i);
    }
    lemma_resolved_not_local(f);
    lemma_vendor_not_local(m);
    lemma_accepted_cpu(t.cpu, t.kernel, t.os, t.format);
    lemma_accepted_system(t.cpu, t.kernel, t.os, t.format);
    lemma_words_not_local();
    assert(!local(t.cpu)) by {
        if t.cpu.len() == 0 {
            assert(t.cpu =~= Seq::empty());
        }
    }
    if known_kernel(b) {
        lemma_known_kernel_is_linux(b, t.cpu);
        let n = if t.os == "gnu"@ + b.skip(5) {
            5int
        } else {
            9int
        };
        if local(t.os) {
            lemma_occurs_behind("local"@, "gnu"@, b.skip(n));
            lemma_occurs_in_part("local"@, b, n, b.len() as int);
        }
        assert(t.format =~= Seq::empty());
    } else {
        lemma_cut_not_local(b);
        lemma_first_pass(b);
        let given = kernel_and_os(b).1;
        if t.format.len() == 0 {
            lemma_known_os_was_given(given, t.cpu);
            assert(t.format =~= Seq::empty());
        } else {
            lemma_format_reads_back(given, t.cpu);
            assert(t.os =~= Seq::empty());
        }
    }
    lemma_joined_not_local(t.cpu, t.vendor);
    let s1 = joined(t.cpu, t.vendor);
    lemma_with_part_not_local(s1, t.kernel);
    let s2 = with_part(s1, t.kernel);
    lemma_with_part_not_local(s2, t.os);
    let s3 = with_part(s2, t.os);
    lemma_with_part_not_local(s3, t.format);
}

} // verus!
