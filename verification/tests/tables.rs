use config_sub::machine::normalize_machine;
use config_sub::os::{is_object_format_name, normalize_os, split_kernel_os, split_os_format};
use config_sub::resolve::{
    is_compound_os, is_vendor_name, resolve_one, resolve_three, resolve_two,
};
use config_sub::shape::{
    is_convex_large, is_convex_small, is_intel_x86, is_sco_dotted, is_sco_versioned, is_sun_os,
};
use config_sub::validate::{check_pairing, is_linux_libc, is_recognized_os, validate};
use config_sub::Error;

fn t(s: &str) -> Vec<char> {
    s.chars().collect()
}

fn pair(a: &str, b: &str) -> (Vec<char>, Vec<char>) {
    (t(a), t(b))
}

fn triple(a: &str, b: &str, c: &str) -> (Vec<char>, Vec<char>, Vec<char>) {
    (t(a), t(b), t(c))
}

fn s(x: &str) -> String {
    x.to_string()
}

#[test]
fn the_convex_shapes() {
    for x in ["c1", "c2"] {
        assert!(is_convex_small(&t(x)), "{}", x);
        assert!(!is_convex_large(&t(x)), "{}", x);
    }
    for x in ["c32", "c34", "c38"] {
        assert!(is_convex_large(&t(x)), "{}", x);
        assert!(!is_convex_small(&t(x)), "{}", x);
    }
    for x in ["", "c", "c3", "c0", "c12", "c1x", "C1", "xc1", "c[12]", "c33", "c3", "c328", "c3[248]"] {
        assert!(!is_convex_small(&t(x)), "{}", x);
        assert!(!is_convex_large(&t(x)), "{}", x);
    }
}

#[test]
fn the_sun_os_shape() {
    for x in ["sunos", "sunos4", "sun4os", "sun4os5", "sunxxosxx", "sunosos", "sun/os", "sun*os*"] {
        assert!(is_sun_os(&t(x)), "{}", x);
    }
    for x in ["", "sun", "suno", "sun4", "sunso", "osun", "ossun", "xsunos", "Sunos", "su-nos", "sun*so"] {
        assert!(!is_sun_os(&t(x)), "{}", x);
    }
}

#[test]
fn the_intel_shape() {
    for x in ["i086", "i186", "i286", "i386", "i486", "i586", "i686", "i786", "i886", "i986"] {
        assert!(is_intel_x86(&t(x)), "{}", x);
    }
    for x in ["", "i86", "ix86", "i3866", "i1386", "i38", "I386", "i385", "i376", "i/86", "i:86", "i386-pc", "i[0-9]86"] {
        assert!(!is_intel_x86(&t(x)), "{}", x);
    }
}

#[test]
fn the_sco_shapes() {
    for x in ["sco3.2.4", "sco3.2.5", "sco3.2.9", "sco3.2.4.2", "sco3.2.7abc"] {
        assert!(is_sco_dotted(&t(x)), "{}", x);
    }
    for x in ["", "sco", "sco3.2.", "sco3.2.3", "sco3.2.0", "sco3.2.a", "sco3.2v4", "sco3x2.4", "xsco3.2.4", "sco3.2.:"] {
        assert!(!is_sco_dotted(&t(x)), "{}", x);
    }
    for x in ["scov", "sco3.2v4", "sco5v6", "scoxxvxx", "scovv"] {
        assert!(is_sco_versioned(&t(x)), "{}", x);
    }
    for x in ["", "sco", "sco5", "scout", "vsco", "scv", "svco", "SCOv", "sc-ov"] {
        assert!(!is_sco_versioned(&t(x)), "{}", x);
    }
}

#[test]
fn the_compound_systems() {
    let yes = [
        ("cloudabi", "eabi"),
        ("cloudabi2", "eabihf"),
        ("kfreebsd", "gnu"),
        ("kfreebsd10", "gnueabi"),
        ("knetbsd", "gnu"),
        ("knetbsd5", "gnu2"),
        ("kopensolaris", "gnu"),
        ("kopensolaris2", "gnux"),
        ("ironclad", ""),
        ("ironclad", "mlibc"),
        ("linux", ""),
        ("linux", "gnu"),
        ("linux", "anything"),
        ("managarm", ""),
        ("managarm", "mlibc"),
        ("netbsd", "eabi"),
        ("netbsd9", "eabihf"),
        ("netbsd", "gnu"),
        ("netbsd9", "gnu2"),
        ("nto", "qnx"),
        ("nto", "qnx7"),
        ("os2", "emx"),
        ("os2", "emx2"),
        ("rtmk", "nova"),
        ("rtmk", "nova2"),
        ("storm", "chaos"),
        ("storm", "chaos1"),
        ("uclinux", "gnu"),
        ("uclinux", "gnueabi"),
        ("uclinux", "uclibc"),
        ("uclinux", "uclibceabi"),
        ("windows", ""),
        ("windows", "msvc"),
    ];
    for (a, b) in yes {
        assert!(is_compound_os(&t(a), &t(b)), "{}-{}", a, b);
        assert_eq!(
            resolve_three(t("cpu"), t(a), t(b)),
            (t("cpu"), t(&format!("{}-{}", a, b))),
            "{}-{}",
            a,
            b
        );
    }
    let no = [
        ("cloudabi", "gnu"),
        ("cloudab", "eabi"),
        ("kfreebsd", "eabi"),
        ("knetbsd", "musl"),
        ("kopensolaris", "gn"),
        ("ironclad2", "mlibc"),
        ("linux2", "gnu"),
        ("linu", "gnu"),
        ("managarm2", "mlibc"),
        ("netbsd", "musl"),
        ("nto2", "qnx"),
        ("nto", "qn"),
        ("os22", "emx"),
        ("os2", "em"),
        ("rtmk2", "nova"),
        ("rtmk", "nov"),
        ("storm2", "chaos"),
        ("storm", "chao"),
        ("uclinux2", "gnu"),
        ("uclinux", "musl"),
        ("windows2", "msvc"),
        ("pc", "linux"),
        ("", ""),
        ("android", "linux"),
    ];
    for (a, b) in no {
        assert!(!is_compound_os(&t(a), &t(b)), "{}-{}", a, b);
    }
}

#[test]
fn three_fields() {
    assert_eq!(resolve_three(t("arm"), t("linux"), t("gnueabi")), pair("arm", "linux-gnueabi"));
    assert_eq!(resolve_three(t("arm"), t("android"), t("linux")), pair("arm-unknown", "linux-android"));
    assert_eq!(resolve_three(t("arm"), t("android"), t("linux2")), pair("arm-android", "linux2"));
    assert_eq!(resolve_three(t("arm"), t("android2"), t("linux")), pair("arm-android2", "linux"));
    assert_eq!(resolve_three(t("sparc"), t("sun"), t("sunos4")), pair("sparc-sun", "sunos4"));
    assert_eq!(resolve_three(t(""), t(""), t("")), pair("-", ""));
    assert_eq!(resolve_three(t("x"), t("linux"), t("")), pair("x", "linux-"));
}

#[test]
fn the_vendors() {
    let names = [
        "3100", "32", "3300", "3600", "7300", "acorn", "altos", "apollo", "apple", "atari", "att",
        "axis", "be", "bull", "cbm", "ccur", "cisco", "commodore", "convergent", "convex", "cray",
        "crds", "dec", "delta", "dg", "digital", "dolphin", "encore", "gould", "harris",
        "highlevel", "hitachi", "hp", "ibm", "intergraph", "isi", "knuth", "masscomp",
        "microblaze", "mips", "motorola", "ncr", "news", "next", "ns", "oki", "omron", "pc533",
        "rebel", "rom68k", "rombug", "semi", "sequent", "sgi", "siemens", "sim", "sni", "sony",
        "stratus", "sun", "tektronix", "tti", "ultra", "unicom", "wec", "winbond", "wrs",
    ];
    assert_eq!(names.len(), 67);
    for name in names {
        let longer = format!("{}x9", name);
        assert!(is_vendor_name(&t(name)), "{}", name);
        assert!(is_vendor_name(&t(&longer)), "{}", longer);
        assert_eq!(
            resolve_two(t("cpu"), t(name)),
            (t(&format!("cpu-{}", name)), t("")),
            "{}",
            name
        );
        assert_eq!(
            resolve_two(t("cpu"), t(&longer)),
            (t(&format!("cpu-{}", longer)), t("")),
            "{}",
            longer
        );
    }
    for name in [
        "", "3", "310", "31", "330", "730", "acor", "b", "linux", "musl", "gnu", "elf", "unknown",
        "pc", "h", "ib", "su", "tock", "zephyr", "xsun", "Sun", "eabi", "aout", "none", "uefi",
        "windows", "bsd", "freebsd", "android",
    ] {
        assert!(!is_vendor_name(&t(name)), "{}", name);
    }
}

#[test]
fn two_fields() {
    for m in ["c1", "c2", "c32", "c34", "c38"] {
        assert_eq!(
            resolve_two(t("convex"), t(m)),
            (t(&format!("{}-convex", m)), t("")),
            "{}",
            m
        );
    }
    assert_eq!(resolve_two(t("convex"), t("c3")), pair("convex", "c3"));
    assert_eq!(resolve_two(t("convex"), t("c12")), pair("convex", "c12"));
    assert_eq!(resolve_two(t("convexx"), t("c1")), pair("convexx", "c1"));
    assert_eq!(resolve_two(t("decstation"), t("3100")), pair("mips-dec", ""));
    assert_eq!(resolve_two(t("decstation"), t("31000")), pair("decstation-31000", ""));
    assert_eq!(resolve_two(t("decstation2"), t("3100")), pair("decstation2-3100", ""));
    assert_eq!(resolve_two(t("sparc"), t("sunos4")), pair("sparc", "sunos4"));
    assert_eq!(resolve_two(t("sparc"), t("sun4os")), pair("sparc", "sun4os"));
    assert_eq!(resolve_two(t("sparc"), t("sun4")), pair("sparc-sun4", ""));
    assert_eq!(resolve_two(t("sparc"), t("sun")), pair("sparc-sun", ""));
    assert_eq!(resolve_two(t("arm"), t("tock")), pair("arm-unknown", "tock"));
    assert_eq!(resolve_two(t("arm"), t("tock2")), pair("arm-unknown", "tock2"));
    assert_eq!(resolve_two(t("arm"), t("zephyr")), pair("arm-unknown", "zephyr"));
    assert_eq!(resolve_two(t("arm"), t("zephyr3")), pair("arm-unknown", "zephyr3"));
    assert_eq!(resolve_two(t("arm"), t("toc")), pair("arm", "toc"));
    assert_eq!(resolve_two(t("amd64"), t("linux")), pair("amd64", "linux"));
    assert_eq!(resolve_two(t(""), t("")), pair("", ""));
    assert_eq!(resolve_two(t("convex"), t("convex")), pair("convex-convex", ""));
}

#[test]
fn one_field() {
    assert_eq!(resolve_one(t("386bsd")), Some(pair("i386-pc", "bsd")));
    for x in ["", "386", "386bsd2", "386BSD", "linux", "amd64", "w89k", "decstation", "pc98"] {
        assert_eq!(resolve_one(t(x)), None, "{}", x);
    }
}

#[test]
fn the_machines_known_by_name() {
    assert_eq!(normalize_machine(t("w89k")), pair("hppa1.1", "winbond"));
    for x in ["i386", "i486", "i586", "i686", "i986", "x86_64"] {
        assert_eq!(normalize_machine(t(x)), pair(x, "pc"), "{}", x);
    }
    assert_eq!(normalize_machine(t("pc98")), pair("i386", "pc"));
    assert_eq!(normalize_machine(t("x64")), pair("x86_64", "pc"));
    assert_eq!(normalize_machine(t("amd64")), pair("x86_64", "pc"));
    assert_eq!(normalize_machine(t("i3086")), pair("i3086", "unknown"));
    assert_eq!(normalize_machine(t("ix86")), pair("ix86", "unknown"));
    assert_eq!(normalize_machine(t("i386-acme")), pair("i386", "acme"));
    assert_eq!(normalize_machine(t("amd64-acme")), pair("amd64", "acme"));
    assert_eq!(normalize_machine(t("w89k-digital")), pair("w89k", "dec"));
    assert_eq!(normalize_machine(t("x86")), pair("x86", "unknown"));
    assert_eq!(normalize_machine(t("c1-convex")), pair("c1", "convex"));
    assert_eq!(normalize_machine(t("mips-dec")), pair("mips", "dec"));
}

#[test]
fn the_kernels_known_by_their_beginning() {
    assert_eq!(split_kernel_os(t("gnu/linux")), pair("linux", "gnu"));
    assert_eq!(split_kernel_os(t("gnu/linux-x")), pair("linux", "gnu-x"));
    assert_eq!(split_kernel_os(t("gnu/linuxeabi")), pair("linux", "gnueabi"));
    assert_eq!(split_kernel_os(t("os2-emx")), pair("os2", "emx"));
    assert_eq!(split_kernel_os(t("os2-emx2")), pair("os2", "emx2"));
    assert_eq!(split_kernel_os(t("nto-qnx")), pair("nto", "qnx"));
    assert_eq!(split_kernel_os(t("nto-qnx7.1")), pair("nto", "qnx7.1"));
    assert_eq!(split_kernel_os(t("nto")), pair("nto", "qnx"));
    assert_eq!(split_kernel_os(t("nto7")), pair("nto", "qnx7"));
    assert_eq!(split_kernel_os(t("nto-x")), pair("nto", "qnx-x"));
    assert_eq!(split_kernel_os(t("ironclad")), pair("ironclad", "mlibc"));
    assert_eq!(split_kernel_os(t("ironclad-x")), pair("ironclad", "mlibc-x"));
    assert_eq!(split_kernel_os(t("linux")), pair("linux", "gnu"));
    assert_eq!(split_kernel_os(t("linuxeabi")), pair("linux", "gnueabi"));
    assert_eq!(split_kernel_os(t("linux-gnu")), pair("linux", "gnu-gnu"));
    assert_eq!(split_kernel_os(t("linux-android")), pair("linux", "gnu-android"));
    assert_eq!(split_kernel_os(t("linuxlinux")), pair("linux", "gnulinux"));
    assert_eq!(split_kernel_os(t("managarm")), pair("managarm", "mlibc"));
    assert_eq!(split_kernel_os(t("managarm-kernel")), pair("managarm", "mlibc"));
    assert_eq!(split_kernel_os(t("windows-msvc")), pair("windows", "msvc"));
    assert_eq!(split_kernel_os(t("k-o-x")), pair("k", "o-x"));
    assert_eq!(split_kernel_os(t("-o")), pair("", "o"));
    assert_eq!(split_kernel_os(t("k-")), pair("k", ""));
    assert_eq!(split_kernel_os(t("musl")), pair("", "musl"));
    assert_eq!(split_kernel_os(t("gnu")), pair("", "gnu"));
    assert_eq!(split_kernel_os(t("gnu/linu")), pair("", "gnu/linu"));
    assert_eq!(split_kernel_os(t("uclinux-uclibc")), pair("uclinux", "uclibc"));
    assert_eq!(split_kernel_os(t("")), pair("", ""));
}

#[test]
fn the_aliases_of_operating_systems() {
    let cpu = t("sparc");
    let table = [
        ("auroraux", "auroraux"),
        ("bluegene", "cnk"),
        ("bluegeneq", "cnk"),
        ("solaris1", "sunos4"),
        ("solaris1.1", "sunos4.1"),
        ("solaris1.1.2", "sunos4.1.2"),
        ("solaris", "solaris2"),
        ("solaris2", "solaris2"),
        ("solaris10", "solaris10"),
        ("solaris2.6", "solaris2.6"),
        ("unixware", "sysv4.2uw"),
        ("unixware7", "sysv4.2uw"),
        ("ns", "nextstep"),
        ("ns1", "nextstep"),
        ("nextstep", "nextstep"),
        ("nextstep1", "nextstep"),
        ("openstep1", "nextstep"),
        ("ns2", "nextstep2"),
        ("nextstep2", "nextstep2"),
        ("openstep2", "nextstep2"),
        ("ns3", "openstep3"),
        ("nextstep3", "openstep3"),
        ("openstep", "openstep3"),
        ("openstep3", "openstep3"),
        ("ns4", "openstep4"),
        ("nextstep4", "openstep4"),
        ("openstep4", "openstep4"),
        ("ns5", "ns5"),
        ("nextstep5", "nextstep5"),
        ("es1800", "ose"),
        ("es1800x", "ose"),
        ("chorusos", "chorusos"),
        ("chorusos5", "chorusos"),
        ("isc", "isc2.2"),
        ("isc3", "isc3"),
        ("sco6", "sco5v6"),
        ("sco5", "sco3.2v5"),
        ("sco4", "sco3.2v4"),
        ("sco3.2.4", "sco3.2v4"),
        ("sco3.2.5.1", "sco3.2v5.1"),
        ("sco3.2.9", "sco3.2v9"),
        ("sco3.2v4", "sco3.2v4"),
        ("sco5v6", "sco5v6"),
        ("scov", "scov"),
        ("scout", "scout"),
        ("sco", "sco3.2v2"),
        ("sco3", "sco3.2v2"),
        ("sco3.2.3", "sco3.2v2"),
        ("sco7", "sco3.2v2"),
        ("scouts", "sco3.2v2"),
        ("psos", "psos"),
        ("psos3", "psos"),
        ("musl", "musl"),
        ("gnu", "gnu"),
        ("freebsd13", "freebsd13"),
        ("", ""),
    ];
    for (given, os) in table {
        assert_eq!(split_os_format(t(given), &cpu), pair(os, ""), "{}", given);
        assert_eq!(normalize_os(t(given), &cpu), triple("", os, ""), "{}", given);
        assert_eq!(
            normalize_os(t(&format!("k-{}", given)), &cpu),
            triple("k", os, ""),
            "k-{}",
            given
        );
    }
}

#[test]
fn pikeos_goes_by_the_cpu() {
    for cpu in ["arm", "armv7", "armeb", "arm64"] {
        assert_eq!(split_os_format(t("pikeos"), &t(cpu)), pair("eabi", ""), "{}", cpu);
        assert_eq!(split_os_format(t("pikeos5"), &t(cpu)), pair("eabi", ""), "{}", cpu);
    }
    for cpu in ["", "ar", "aarch64", "x86_64", "none", "xarm"] {
        assert_eq!(split_os_format(t("pikeos"), &t(cpu)), pair("", "elf"), "{}", cpu);
        assert_eq!(split_os_format(t("pikeos5"), &t(cpu)), pair("", "elf"), "{}", cpu);
    }
    assert_eq!(split_os_format(t("pikeo"), &t("arm")), pair("pikeo", ""));
    assert_eq!(normalize_os(t("k-pikeos"), &t("none")), triple("k", "", "elf"));
}

#[test]
fn an_object_format_moves_to_its_place() {
    for f in ["aout", "aout2", "coff", "coff64", "elf", "elf32", "pe", "pe32", "pear", "elfin"] {
        assert!(is_object_format_name(&t(f)), "{}", f);
        assert_eq!(split_os_format(t(f), &t("sparc")), pair("", f), "{}", f);
        assert_eq!(normalize_os(t(f), &t("arm")), triple("", "", f), "{}", f);
        assert_eq!(
            normalize_os(t(&format!("k-{}", f)), &t("arm")),
            triple("k", "", f),
            "{}",
            f
        );
    }
    for f in ["", "aou", "cof", "el", "p", "xelf", "ELF", "macho", "gnu"] {
        assert!(!is_object_format_name(&t(f)), "{}", f);
    }
}

#[test]
fn the_known_operating_systems() {
    for os in [
        "llvm", "llvm18", "musl", "musleabi", "newlibc", "newlibc2", "relibc", "relibc1",
        "uclibc", "uclibceabi", "eabi", "eabihf", "gnueabi", "gnueabihf", "simlinux",
        "simwindows", "spe", "ghcjs", "uefi", "none", "kernel", "kernel7", "msvc", "msvc19",
    ] {
        assert!(is_recognized_os(&t(os)), "{}", os);
    }
    for os in [
        "", "gnu", "linux", "android", "newlib", "mlibc", "dietlibc", "ohos", "simlinux2",
        "simwindows2", "spe2", "ghcjs2", "uefi2", "none2", "non", "bsd", "sunos4", "unknown",
        "LLVM", "xmusl", "gnu-gnu", "darwin", "windows",
    ] {
        assert!(!is_recognized_os(&t(os)), "{}", os);
        if !os.is_empty() {
            assert_eq!(
                validate(&t(""), &t(""), &t(os), &t("")),
                Err(Error::OsNotRecognized(s(os))),
                "{}",
                os
            );
            assert_eq!(
                validate(&t("linux"), &t("k"), &t(os), &t("elf")),
                Err(Error::OsNotRecognized(s(os))),
                "{}",
                os
            );
        }
    }
}

#[test]
fn the_c_libraries_of_linux() {
    for os in [
        "gnu", "gnueabi", "android", "android29", "dietlibc", "dietlibc1", "llvm", "llvm2",
        "mlibc", "mlibc1", "musl", "musleabi", "newlib", "newlibc", "relibc", "relibc2",
        "uclibc", "uclibceabi", "ohos", "ohos5",
    ] {
        assert!(is_linux_libc(&t(os)), "{}", os);
        assert_eq!(check_pairing(&t("linux"), &t("k"), &t(os), &t("")), Ok(()), "{}", os);
    }
    for os in ["", "gn", "eabi", "none", "uefi", "spe", "bionic", "glibc", "xmusl"] {
        assert!(!is_linux_libc(&t(os)), "{}", os);
    }
}

#[test]
fn the_checks_are_made_in_order() {
    let e = t("");
    assert_eq!(
        validate(&t("javascript"), &e, &e, &e),
        Err(Error::BlankOsRequiresExplicitObjectFormat)
    );
    assert_eq!(
        validate(&t("javascript"), &e, &t("bogus"), &t("bogus")),
        Err(Error::OsNotRecognized(s("bogus")))
    );
    assert_eq!(
        validate(&t("javascript"), &e, &t("musl"), &t("bogus")),
        Err(Error::ObjectFormatNotRecognized(s("bogus")))
    );
    assert_eq!(
        validate(&t("javascript"), &e, &e, &t("macho")),
        Err(Error::ObjectFormatNotRecognized(s("macho")))
    );
    assert_eq!(
        validate(&t("javascript"), &e, &t("musl"), &t("elf")),
        Err(Error::CpuIncompatibleWithOs(s("javascript"), s("musl")))
    );
    assert_eq!(
        validate(&t("javascript"), &e, &e, &t("elf")),
        Err(Error::CpuIncompatibleWithOs(s("javascript"), s("")))
    );
    assert_eq!(
        validate(&t("linux"), &e, &t("ghcjs"), &e),
        Err(Error::CpuIncompatibleWithOs(s("linux"), s("ghcjs")))
    );
    assert_eq!(
        validate(&e, &e, &t("ghcjs"), &e),
        Err(Error::CpuIncompatibleWithOs(s(""), s("ghcjs")))
    );
    assert_eq!(
        validate(&t("javascript"), &t("k"), &t("ghcjs"), &e),
        Err(Error::KernelNotKnownToWorkWithOs(s("k"), s("ghcjs")))
    );
}

#[test]
fn the_combinations() {
    let e = t("");
    let ok: Result<(), Error> = Ok(());
    let unknown = |k: &str, os: &str| -> Result<(), Error> {
        Err(Error::KernelNotKnownToWorkWithOs(s(k), s(os)))
    };
    assert_eq!(validate(&t("linux"), &t("k"), &t("musl"), &e), ok);
    assert_eq!(validate(&t("linux"), &e, &t("llvm"), &e), ok);
    assert_eq!(validate(&t("linux"), &e, &t("gnueabi"), &e), ok);
    assert_eq!(validate(&t("linux"), &e, &t("newlibc"), &e), ok);
    assert_eq!(validate(&t("linux"), &e, &t("relibc"), &e), ok);
    assert_eq!(validate(&t("linux"), &e, &t("uclibc"), &e), ok);
    assert_eq!(validate(&t("linux"), &e, &t("eabi"), &e), unknown("", "eabi"));
    assert_eq!(validate(&t("linux"), &e, &t("none"), &e), unknown("", "none"));
    assert_eq!(validate(&t("linux"), &e, &e, &t("elf")), unknown("", ""));
    assert_eq!(validate(&t("linux2"), &e, &t("musl"), &e), unknown("", "musl"));
    assert_eq!(validate(&t("uclinux"), &e, &t("uclibc"), &e), ok);
    assert_eq!(validate(&t("uclinux"), &e, &t("uclibc9"), &e), ok);
    assert_eq!(validate(&t("uclinux"), &e, &t("gnueabi"), &e), ok);
    assert_eq!(validate(&t("uclinux"), &t("k"), &t("musl"), &e), unknown("k", "musl"));
    assert_eq!(check_pairing(&t("uclinux"), &e, &t("gnu"), &e), ok);
    assert_eq!(check_pairing(&t("ironclad"), &e, &t("mlibc"), &e), ok);
    assert_eq!(check_pairing(&t("ironclad"), &e, &t("mlibc2"), &e), ok);
    assert_eq!(check_pairing(&t("ironclad"), &e, &t("musl"), &e), unknown("", "musl"));
    assert_eq!(check_pairing(&t("ironclad"), &e, &t("mlibc"), &t("elf")), unknown("", "mlibc"));
    assert_eq!(
        validate(&t("ironclad"), &e, &t("mlibc"), &e),
        Err(Error::OsNotRecognized(s("mlibc")))
    );
    assert_eq!(
        validate(&e, &t("k"), &t("kernel"), &e),
        Err(Error::OsNeedsExplicitKernel(s("kernel")))
    );
    assert_eq!(
        validate(&e, &t("k"), &t("kernel5"), &e),
        Err(Error::OsNeedsExplicitKernel(s("kernel5")))
    );
    assert_eq!(
        validate(&t("arm"), &t("k"), &t("kernel5"), &e),
        Err(Error::KernelDoesNotSupportOs(s("k"), s("kernel5")))
    );
    assert_eq!(
        validate(&t("none"), &e, &t("kernel"), &e),
        Err(Error::KernelDoesNotSupportOs(s(""), s("kernel")))
    );
    assert_eq!(validate(&t("arm"), &t("k"), &t("kernel5"), &t("elf")), unknown("k", "kernel5"));
    assert_eq!(validate(&e, &t("k"), &t("kernel5"), &t("elf")), unknown("k", "kernel5"));
    assert_eq!(
        validate(&t("x86_64"), &t("windows"), &t("msvc"), &e),
        Err(Error::OsNeedsWindows(s("msvc")))
    );
    assert_eq!(validate(&e, &e, &t("msvc19"), &e), Err(Error::OsNeedsWindows(s("msvc19"))));
    assert_eq!(validate(&t("x86_64"), &e, &t("msvc"), &t("pe")), unknown("", "msvc"));
    assert_eq!(validate(&t("none"), &e, &e, &t("elf")), ok);
    assert_eq!(validate(&t("none"), &t("k"), &e, &t("coff")), ok);
    assert_eq!(validate(&t("none"), &e, &t("eabi"), &t("elf")), unknown("", "eabi"));
    assert_eq!(validate(&t("none"), &e, &t("eabi"), &e), unknown("", "eabi"));
    assert_eq!(validate(&e, &e, &t("musl"), &e), ok);
    assert_eq!(validate(&e, &t("k"), &t("uefi"), &e), ok);
    assert_eq!(validate(&e, &e, &t("none"), &e), ok);
    assert_eq!(validate(&e, &e, &e, &t("elf")), ok);
    assert_eq!(validate(&e, &t("k"), &e, &t("aout")), ok);
    assert_eq!(validate(&e, &e, &t("musl"), &t("elf")), unknown("", "musl"));
    assert_eq!(validate(&t("x86_64"), &t("linux"), &t("musl"), &e), unknown("linux", "musl"));
    assert_eq!(validate(&t("x86_64"), &e, &e, &t("elf")), unknown("", ""));
}
