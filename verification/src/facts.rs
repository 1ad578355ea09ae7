//! What the words of the rule table are made of: their lengths and their
//! characters, which is what every comparison between two of them rests
//! on.

use crate::split::{head_len, is_plain, joined, lemma_head_len};
use vstd::prelude::*;

verus! {

/// The words of the first pass over a basic operating system.
pub proof fn lemma_kernel_words()
    ensures
        "gnu/linux"@.len() == 9 && "gnu/linux"@[0] == 'g' && "gnu/linux"@[1] == 'n'
            && "gnu/linux"@[2] == 'u' && "gnu/linux"@[3] == '/' && "gnu/linux"@[4] == 'l'
            && "gnu/linux"@[5] == 'i' && "gnu/linux"@[6] == 'n' && "gnu/linux"@[7] == 'u'
            && "gnu/linux"@[8] == 'x',
        "os2-emx"@.len() == 7 && "os2-emx"@[0] == 'o' && "os2-emx"@[1] == 's'
            && "os2-emx"@[2] == '2' && "os2-emx"@[3] == '-' && "os2-emx"@[4] == 'e'
            && "os2-emx"@[5] == 'm' && "os2-emx"@[6] == 'x',
        "nto-qnx"@.len() == 7 && "nto-qnx"@[0] == 'n' && "nto-qnx"@[1] == 't'
            && "nto-qnx"@[2] == 'o' && "nto-qnx"@[3] == '-' && "nto-qnx"@[4] == 'q'
            && "nto-qnx"@[5] == 'n' && "nto-qnx"@[6] == 'x',
        "nto"@.len() == 3 && "nto"@[0] == 'n' && "nto"@[1] == 't' && "nto"@[2] == 'o',
        "ironclad"@.len() == 8 && "ironclad"@[0] == 'i' && "ironclad"@[1] == 'r'
            && "ironclad"@[2] == 'o' && "ironclad"@[3] == 'n' && "ironclad"@[4] == 'c'
            && "ironclad"@[5] == 'l' && "ironclad"@[6] == 'a' && "ironclad"@[7] == 'd',
        "linux"@.len() == 5 && "linux"@[0] == 'l' && "linux"@[1] == 'i' && "linux"@[2] == 'n'
            && "linux"@[3] == 'u' && "linux"@[4] == 'x',
        "managarm"@.len() == 8 && "managarm"@[0] == 'm' && "managarm"@[1] == 'a'
            && "managarm"@[2] == 'n' && "managarm"@[3] == 'a' && "managarm"@[4] == 'g'
            && "managarm"@[5] == 'a' && "managarm"@[6] == 'r' && "managarm"@[7] == 'm',
        "os2"@.len() == 3 && "os2"@[0] == 'o' && "os2"@[1] == 's' && "os2"@[2] == '2',
        "emx"@.len() == 3 && "emx"@[0] == 'e' && "emx"@[1] == 'm' && "emx"@[2] == 'x',
        "qnx"@.len() == 3 && "qnx"@[0] == 'q' && "qnx"@[1] == 'n' && "qnx"@[2] == 'x',
        "mlibc"@.len() == 5 && "mlibc"@[0] == 'm' && "mlibc"@[1] == 'l' && "mlibc"@[2] == 'i'
            && "mlibc"@[3] == 'b' && "mlibc"@[4] == 'c',
        "gnu"@.len() == 3 && "gnu"@[0] == 'g' && "gnu"@[1] == 'n' && "gnu"@[2] == 'u',
{
    reveal_strlit("gnu/linux");
    reveal_strlit("os2-emx");
    reveal_strlit("nto-qnx");
    reveal_strlit("nto");
    reveal_strlit("ironclad");
    reveal_strlit("linux");
    reveal_strlit("managarm");
    reveal_strlit("os2");
    reveal_strlit("emx");
    reveal_strlit("qnx");
    reveal_strlit("mlibc");
    reveal_strlit("gnu");
}

/// The spellings that the second pass rewrites.
pub proof fn lemma_alias_words()
    ensures
        "bluegene"@.len() == 8 && "bluegene"@[0] == 'b' && "bluegene"@[1] == 'l'
            && "bluegene"@[2] == 'u' && "bluegene"@[3] == 'e' && "bluegene"@[4] == 'g'
            && "bluegene"@[5] == 'e' && "bluegene"@[6] == 'n' && "bluegene"@[7] == 'e',
        "solaris1"@.len() == 8 && "solaris1"@[0] == 's' && "solaris1"@[1] == 'o'
            && "solaris1"@[2] == 'l' && "solaris1"@[3] == 'a' && "solaris1"@[4] == 'r'
            && "solaris1"@[5] == 'i' && "solaris1"@[6] == 's' && "solaris1"@[7] == '1',
        "solaris1."@.len() == 9 && "solaris1."@[0] == 's' && "solaris1."@[1] == 'o'
            && "solaris1."@[2] == 'l' && "solaris1."@[3] == 'a' && "solaris1."@[4] == 'r'
            && "solaris1."@[5] == 'i' && "solaris1."@[6] == 's' && "solaris1."@[7] == '1'
            && "solaris1."@[8] == '.',
        "solaris"@.len() == 7 && "solaris"@[0] == 's' && "solaris"@[1] == 'o'
            && "solaris"@[2] == 'l' && "solaris"@[3] == 'a' && "solaris"@[4] == 'r'
            && "solaris"@[5] == 'i' && "solaris"@[6] == 's',
        "unixware"@.len() == 8 && "unixware"@[0] == 'u' && "unixware"@[1] == 'n'
            && "unixware"@[2] == 'i' && "unixware"@[3] == 'x' && "unixware"@[4] == 'w'
            && "unixware"@[5] == 'a' && "unixware"@[6] == 'r' && "unixware"@[7] == 'e',
        "ns"@.len() == 2 && "ns"@[0] == 'n' && "ns"@[1] == 's',
        "ns1"@.len() == 3 && "ns1"@[0] == 'n' && "ns1"@[1] == 's' && "ns1"@[2] == '1',
        "nextstep"@.len() == 8 && "nextstep"@[0] == 'n' && "nextstep"@[1] == 'e'
            && "nextstep"@[2] == 'x' && "nextstep"@[3] == 't' && "nextstep"@[4] == 's'
            && "nextstep"@[5] == 't' && "nextstep"@[6] == 'e' && "nextstep"@[7] == 'p',
        "nextstep1"@.len() == 9 && "nextstep1"@[0] == 'n' && "nextstep1"@[1] == 'e'
            && "nextstep1"@[2] == 'x' && "nextstep1"@[3] == 't' && "nextstep1"@[4] == 's'
            && "nextstep1"@[5] == 't' && "nextstep1"@[6] == 'e' && "nextstep1"@[7] == 'p'
            && "nextstep1"@[8] == '1',
        "openstep1"@.len() == 9 && "openstep1"@[0] == 'o' && "openstep1"@[1] == 'p'
            && "openstep1"@[2] == 'e' && "openstep1"@[3] == 'n' && "openstep1"@[4] == 's'
            && "openstep1"@[5] == 't' && "openstep1"@[6] == 'e' && "openstep1"@[7] == 'p'
            && "openstep1"@[8] == '1',
        "ns2"@.len() == 3 && "ns2"@[0] == 'n' && "ns2"@[1] == 's' && "ns2"@[2] == '2',
        "nextstep2"@.len() == 9 && "nextstep2"@[0] == 'n' && "nextstep2"@[1] == 'e'
            && "nextstep2"@[2] == 'x' && "nextstep2"@[3] == 't' && "nextstep2"@[4] == 's'
            && "nextstep2"@[5] == 't' && "nextstep2"@[6] == 'e' && "nextstep2"@[7] == 'p'
            && "nextstep2"@[8] == '2',
        "openstep2"@.len() == 9 && "openstep2"@[0] == 'o' && "openstep2"@[1] == 'p'
            && "openstep2"@[2] == 'e' && "openstep2"@[3] == 'n' && "openstep2"@[4] == 's'
            && "openstep2"@[5] == 't' && "openstep2"@[6] == 'e' && "openstep2"@[7] == 'p'
            && "openstep2"@[8] == '2',
        "ns3"@.len() == 3 && "ns3"@[0] == 'n' && "ns3"@[1] == 's' && "ns3"@[2] == '3',
        "nextstep3"@.len() == 9 && "nextstep3"@[0] == 'n' && "nextstep3"@[1] == 'e'
            && "nextstep3"@[2] == 'x' && "nextstep3"@[3] == 't' && "nextstep3"@[4] == 's'
            && "nextstep3"@[5] == 't' && "nextstep3"@[6] == 'e' && "nextstep3"@[7] == 'p'
            && "nextstep3"@[8] == '3',
        "openstep"@.len() == 8 && "openstep"@[0] == 'o' && "openstep"@[1] == 'p'
            && "openstep"@[2] == 'e' && "openstep"@[3] == 'n' && "openstep"@[4] == 's'
            && "openstep"@[5] == 't' && "openstep"@[6] == 'e' && "openstep"@[7] == 'p',
        "openstep3"@.len() == 9 && "openstep3"@[0] == 'o' && "openstep3"@[1] == 'p'
            && "openstep3"@[2] == 'e' && "openstep3"@[3] == 'n' && "openstep3"@[4] == 's'
            && "openstep3"@[5] == 't' && "openstep3"@[6] == 'e' && "openstep3"@[7] == 'p'
            && "openstep3"@[8] == '3',
        "ns4"@.len() == 3 && "ns4"@[0] == 'n' && "ns4"@[1] == 's' && "ns4"@[2] == '4',
        "nextstep4"@.len() == 9 && "nextstep4"@[0] == 'n' && "nextstep4"@[1] == 'e'
            && "nextstep4"@[2] == 'x' && "nextstep4"@[3] == 't' && "nextstep4"@[4] == 's'
            && "nextstep4"@[5] == 't' && "nextstep4"@[6] == 'e' && "nextstep4"@[7] == 'p'
            && "nextstep4"@[8] == '4',
        "openstep4"@.len() == 9 && "openstep4"@[0] == 'o' && "openstep4"@[1] == 'p'
            && "openstep4"@[2] == 'e' && "openstep4"@[3] == 'n' && "openstep4"@[4] == 's'
            && "openstep4"@[5] == 't' && "openstep4"@[6] == 'e' && "openstep4"@[7] == 'p'
            && "openstep4"@[8] == '4',
        "es1800"@.len() == 6 && "es1800"@[0] == 'e' && "es1800"@[1] == 's' && "es1800"@[2] == '1'
            && "es1800"@[3] == '8' && "es1800"@[4] == '0' && "es1800"@[5] == '0',
        "chorusos"@.len() == 8 && "chorusos"@[0] == 'c' && "chorusos"@[1] == 'h'
            && "chorusos"@[2] == 'o' && "chorusos"@[3] == 'r' && "chorusos"@[4] == 'u'
            && "chorusos"@[5] == 's' && "chorusos"@[6] == 'o' && "chorusos"@[7] == 's',
        "isc"@.len() == 3 && "isc"@[0] == 'i' && "isc"@[1] == 's' && "isc"@[2] == 'c',
        "sco6"@.len() == 4 && "sco6"@[0] == 's' && "sco6"@[1] == 'c' && "sco6"@[2] == 'o'
            && "sco6"@[3] == '6',
        "sco5"@.len() == 4 && "sco5"@[0] == 's' && "sco5"@[1] == 'c' && "sco5"@[2] == 'o'
            && "sco5"@[3] == '5',
        "sco4"@.len() == 4 && "sco4"@[0] == 's' && "sco4"@[1] == 'c' && "sco4"@[2] == 'o'
            && "sco4"@[3] == '4',
        "sco3.2."@.len() == 7 && "sco3.2."@[0] == 's' && "sco3.2."@[1] == 'c'
            && "sco3.2."@[2] == 'o' && "sco3.2."@[3] == '3' && "sco3.2."@[4] == '.'
            && "sco3.2."@[5] == '2' && "sco3.2."@[6] == '.',
        "sco"@.len() == 3 && "sco"@[0] == 's' && "sco"@[1] == 'c' && "sco"@[2] == 'o',
        "scout"@.len() == 5 && "scout"@[0] == 's' && "scout"@[1] == 'c' && "scout"@[2] == 'o'
            && "scout"@[3] == 'u' && "scout"@[4] == 't',
        "psos"@.len() == 4 && "psos"@[0] == 'p' && "psos"@[1] == 's' && "psos"@[2] == 'o'
            && "psos"@[3] == 's',
        "pikeos"@.len() == 6 && "pikeos"@[0] == 'p' && "pikeos"@[1] == 'i' && "pikeos"@[2] == 'k'
            && "pikeos"@[3] == 'e' && "pikeos"@[4] == 'o' && "pikeos"@[5] == 's',
        "arm"@.len() == 3 && "arm"@[0] == 'a' && "arm"@[1] == 'r' && "arm"@[2] == 'm',
{
    reveal_strlit("bluegene");
    reveal_strlit("solaris1");
    reveal_strlit("solaris1.");
    reveal_strlit("solaris");
    reveal_strlit("unixware");
    reveal_strlit("ns");
    reveal_strlit("ns1");
    reveal_strlit("nextstep");
    reveal_strlit("nextstep1");
    reveal_strlit("openstep1");
    reveal_strlit("ns2");
    reveal_strlit("nextstep2");
    reveal_strlit("openstep2");
    reveal_strlit("ns3");
    reveal_strlit("nextstep3");
    reveal_strlit("openstep");
    reveal_strlit("openstep3");
    reveal_strlit("ns4");
    reveal_strlit("nextstep4");
    reveal_strlit("openstep4");
    reveal_strlit("es1800");
    reveal_strlit("chorusos");
    reveal_strlit("isc");
    reveal_strlit("sco6");
    reveal_strlit("sco5");
    reveal_strlit("sco4");
    reveal_strlit("sco3.2.");
    reveal_strlit("sco");
    reveal_strlit("scout");
    reveal_strlit("psos");
    reveal_strlit("pikeos");
    reveal_strlit("arm");
}

/// What the second pass writes in their place.
pub proof fn lemma_rewritten_words()
    ensures
        "cnk"@.len() == 3 && "cnk"@[0] == 'c' && "cnk"@[1] == 'n' && "cnk"@[2] == 'k',
        "sunos4"@.len() == 6 && "sunos4"@[0] == 's' && "sunos4"@[1] == 'u' && "sunos4"@[2] == 'n'
            && "sunos4"@[3] == 'o' && "sunos4"@[4] == 's' && "sunos4"@[5] == '4',
        "solaris2"@.len() == 8 && "solaris2"@[0] == 's' && "solaris2"@[1] == 'o'
            && "solaris2"@[2] == 'l' && "solaris2"@[3] == 'a' && "solaris2"@[4] == 'r'
            && "solaris2"@[5] == 'i' && "solaris2"@[6] == 's' && "solaris2"@[7] == '2',
        "sysv4.2uw"@.len() == 9 && "sysv4.2uw"@[0] == 's' && "sysv4.2uw"@[1] == 'y'
            && "sysv4.2uw"@[2] == 's' && "sysv4.2uw"@[3] == 'v' && "sysv4.2uw"@[4] == '4'
            && "sysv4.2uw"@[5] == '.' && "sysv4.2uw"@[6] == '2' && "sysv4.2uw"@[7] == 'u'
            && "sysv4.2uw"@[8] == 'w',
        "nextstep"@.len() == 8 && "nextstep"@[0] == 'n' && "nextstep"@[1] == 'e'
            && "nextstep"@[2] == 'x' && "nextstep"@[3] == 't' && "nextstep"@[4] == 's'
            && "nextstep"@[5] == 't' && "nextstep"@[6] == 'e' && "nextstep"@[7] == 'p',
        "nextstep2"@.len() == 9 && "nextstep2"@[0] == 'n' && "nextstep2"@[1] == 'e'
            && "nextstep2"@[2] == 'x' && "nextstep2"@[3] == 't' && "nextstep2"@[4] == 's'
            && "nextstep2"@[5] == 't' && "nextstep2"@[6] == 'e' && "nextstep2"@[7] == 'p'
            && "nextstep2"@[8] == '2',
        "openstep3"@.len() == 9 && "openstep3"@[0] == 'o' && "openstep3"@[1] == 'p'
            && "openstep3"@[2] == 'e' && "openstep3"@[3] == 'n' && "openstep3"@[4] == 's'
            && "openstep3"@[5] == 't' && "openstep3"@[6] == 'e' && "openstep3"@[7] == 'p'
            && "openstep3"@[8] == '3',
        "openstep4"@.len() == 9 && "openstep4"@[0] == 'o' && "openstep4"@[1] == 'p'
            && "openstep4"@[2] == 'e' && "openstep4"@[3] == 'n' && "openstep4"@[4] == 's'
            && "openstep4"@[5] == 't' && "openstep4"@[6] == 'e' && "openstep4"@[7] == 'p'
            && "openstep4"@[8] == '4',
        "ose"@.len() == 3 && "ose"@[0] == 'o' && "ose"@[1] == 's' && "ose"@[2] == 'e',
        "chorusos"@.len() == 8 && "chorusos"@[0] == 'c' && "chorusos"@[1] == 'h'
            && "chorusos"@[2] == 'o' && "chorusos"@[3] == 'r' && "chorusos"@[4] == 'u'
            && "chorusos"@[5] == 's' && "chorusos"@[6] == 'o' && "chorusos"@[7] == 's',
        "isc2.2"@.len() == 6 && "isc2.2"@[0] == 'i' && "isc2.2"@[1] == 's' && "isc2.2"@[2] == 'c'
            && "isc2.2"@[3] == '2' && "isc2.2"@[4] == '.' && "isc2.2"@[5] == '2',
        "sco5v6"@.len() == 6 && "sco5v6"@[0] == 's' && "sco5v6"@[1] == 'c' && "sco5v6"@[2] == 'o'
            && "sco5v6"@[3] == '5' && "sco5v6"@[4] == 'v' && "sco5v6"@[5] == '6',
        "sco3.2v5"@.len() == 8 && "sco3.2v5"@[0] == 's' && "sco3.2v5"@[1] == 'c'
            && "sco3.2v5"@[2] == 'o' && "sco3.2v5"@[3] == '3' && "sco3.2v5"@[4] == '.'
            && "sco3.2v5"@[5] == '2' && "sco3.2v5"@[6] == 'v' && "sco3.2v5"@[7] == '5',
        "sco3.2v4"@.len() == 8 && "sco3.2v4"@[0] == 's' && "sco3.2v4"@[1] == 'c'
            && "sco3.2v4"@[2] == 'o' && "sco3.2v4"@[3] == '3' && "sco3.2v4"@[4] == '.'
            && "sco3.2v4"@[5] == '2' && "sco3.2v4"@[6] == 'v' && "sco3.2v4"@[7] == '4',
        "sco3.2v"@.len() == 7 && "sco3.2v"@[0] == 's' && "sco3.2v"@[1] == 'c'
            && "sco3.2v"@[2] == 'o' && "sco3.2v"@[3] == '3' && "sco3.2v"@[4] == '.'
            && "sco3.2v"@[5] == '2' && "sco3.2v"@[6] == 'v',
        "sco3.2v2"@.len() == 8 && "sco3.2v2"@[0] == 's' && "sco3.2v2"@[1] == 'c'
            && "sco3.2v2"@[2] == 'o' && "sco3.2v2"@[3] == '3' && "sco3.2v2"@[4] == '.'
            && "sco3.2v2"@[5] == '2' && "sco3.2v2"@[6] == 'v' && "sco3.2v2"@[7] == '2',
        "psos"@.len() == 4 && "psos"@[0] == 'p' && "psos"@[1] == 's' && "psos"@[2] == 'o'
            && "psos"@[3] == 's',
        "eabi"@.len() == 4 && "eabi"@[0] == 'e' && "eabi"@[1] == 'a' && "eabi"@[2] == 'b'
            && "eabi"@[3] == 'i',
        "elf"@.len() == 3 && "elf"@[0] == 'e' && "elf"@[1] == 'l' && "elf"@[2] == 'f',
{
    reveal_strlit("cnk");
    reveal_strlit("sunos4");
    reveal_strlit("solaris2");
    reveal_strlit("sysv4.2uw");
    reveal_strlit("nextstep");
    reveal_strlit("nextstep2");
    reveal_strlit("openstep3");
    reveal_strlit("openstep4");
    reveal_strlit("ose");
    reveal_strlit("chorusos");
    reveal_strlit("isc2.2");
    reveal_strlit("sco5v6");
    reveal_strlit("sco3.2v5");
    reveal_strlit("sco3.2v4");
    reveal_strlit("sco3.2v");
    reveal_strlit("sco3.2v2");
    reveal_strlit("psos");
    reveal_strlit("eabi");
    reveal_strlit("elf");
}

/// The operating systems that are known, and the object formats.
pub proof fn lemma_system_words()
    ensures
        "llvm"@.len() == 4 && "llvm"@[0] == 'l' && "llvm"@[1] == 'l' && "llvm"@[2] == 'v'
            && "llvm"@[3] == 'm',
        "musl"@.len() == 4 && "musl"@[0] == 'm' && "musl"@[1] == 'u' && "musl"@[2] == 's'
            && "musl"@[3] == 'l',
        "newlibc"@.len() == 7 && "newlibc"@[0] == 'n' && "newlibc"@[1] == 'e'
            && "newlibc"@[2] == 'w' && "newlibc"@[3] == 'l' && "newlibc"@[4] == 'i'
            && "newlibc"@[5] == 'b' && "newlibc"@[6] == 'c',
        "relibc"@.len() == 6 && "relibc"@[0] == 'r' && "relibc"@[1] == 'e' && "relibc"@[2] == 'l'
            && "relibc"@[3] == 'i' && "relibc"@[4] == 'b' && "relibc"@[5] == 'c',
        "uclibc"@.len() == 6 && "uclibc"@[0] == 'u' && "uclibc"@[1] == 'c' && "uclibc"@[2] == 'l'
            && "uclibc"@[3] == 'i' && "uclibc"@[4] == 'b' && "uclibc"@[5] == 'c',
        "eabi"@.len() == 4 && "eabi"@[0] == 'e' && "eabi"@[1] == 'a' && "eabi"@[2] == 'b'
            && "eabi"@[3] == 'i',
        "gnueabi"@.len() == 7 && "gnueabi"@[0] == 'g' && "gnueabi"@[1] == 'n'
            && "gnueabi"@[2] == 'u' && "gnueabi"@[3] == 'e' && "gnueabi"@[4] == 'a'
            && "gnueabi"@[5] == 'b' && "gnueabi"@[6] == 'i',
        "simlinux"@.len() == 8 && "simlinux"@[0] == 's' && "simlinux"@[1] == 'i'
            && "simlinux"@[2] == 'm' && "simlinux"@[3] == 'l' && "simlinux"@[4] == 'i'
            && "simlinux"@[5] == 'n' && "simlinux"@[6] == 'u' && "simlinux"@[7] == 'x',
        "simwindows"@.len() == 10 && "simwindows"@[0] == 's' && "simwindows"@[1] == 'i'
            && "simwindows"@[2] == 'm' && "simwindows"@[3] == 'w' && "simwindows"@[4] == 'i'
            && "simwindows"@[5] == 'n' && "simwindows"@[6] == 'd' && "simwindows"@[7] == 'o'
            && "simwindows"@[8] == 'w' && "simwindows"@[9] == 's',
        "spe"@.len() == 3 && "spe"@[0] == 's' && "spe"@[1] == 'p' && "spe"@[2] == 'e',
        "ghcjs"@.len() == 5 && "ghcjs"@[0] == 'g' && "ghcjs"@[1] == 'h' && "ghcjs"@[2] == 'c'
            && "ghcjs"@[3] == 'j' && "ghcjs"@[4] == 's',
        "uefi"@.len() == 4 && "uefi"@[0] == 'u' && "uefi"@[1] == 'e' && "uefi"@[2] == 'f'
            && "uefi"@[3] == 'i',
        "none"@.len() == 4 && "none"@[0] == 'n' && "none"@[1] == 'o' && "none"@[2] == 'n'
            && "none"@[3] == 'e',
        "kernel"@.len() == 6 && "kernel"@[0] == 'k' && "kernel"@[1] == 'e' && "kernel"@[2] == 'r'
            && "kernel"@[3] == 'n' && "kernel"@[4] == 'e' && "kernel"@[5] == 'l',
        "msvc"@.len() == 4 && "msvc"@[0] == 'm' && "msvc"@[1] == 's' && "msvc"@[2] == 'v'
            && "msvc"@[3] == 'c',
        "aout"@.len() == 4 && "aout"@[0] == 'a' && "aout"@[1] == 'o' && "aout"@[2] == 'u'
            && "aout"@[3] == 't',
        "coff"@.len() == 4 && "coff"@[0] == 'c' && "coff"@[1] == 'o' && "coff"@[2] == 'f'
            && "coff"@[3] == 'f',
        "elf"@.len() == 3 && "elf"@[0] == 'e' && "elf"@[1] == 'l' && "elf"@[2] == 'f',
        "pe"@.len() == 2 && "pe"@[0] == 'p' && "pe"@[1] == 'e',
{
    reveal_strlit("llvm");
    reveal_strlit("musl");
    reveal_strlit("newlibc");
    reveal_strlit("relibc");
    reveal_strlit("uclibc");
    reveal_strlit("eabi");
    reveal_strlit("gnueabi");
    reveal_strlit("simlinux");
    reveal_strlit("simwindows");
    reveal_strlit("spe");
    reveal_strlit("ghcjs");
    reveal_strlit("uefi");
    reveal_strlit("none");
    reveal_strlit("kernel");
    reveal_strlit("msvc");
    reveal_strlit("aout");
    reveal_strlit("coff");
    reveal_strlit("elf");
    reveal_strlit("pe");
}

/// The machines that are known by name, and the vendors' aliases.
pub proof fn lemma_machine_words()
    ensures
        "w89k"@.len() == 4 && "w89k"@[0] == 'w' && "w89k"@[1] == '8' && "w89k"@[2] == '9'
            && "w89k"@[3] == 'k',
        "hppa1.1"@.len() == 7 && "hppa1.1"@[0] == 'h' && "hppa1.1"@[1] == 'p'
            && "hppa1.1"@[2] == 'p' && "hppa1.1"@[3] == 'a' && "hppa1.1"@[4] == '1'
            && "hppa1.1"@[5] == '.' && "hppa1.1"@[6] == '1',
        "winbond"@.len() == 7 && "winbond"@[0] == 'w' && "winbond"@[1] == 'i'
            && "winbond"@[2] == 'n' && "winbond"@[3] == 'b' && "winbond"@[4] == 'o'
            && "winbond"@[5] == 'n' && "winbond"@[6] == 'd',
        "x86_64"@.len() == 6 && "x86_64"@[0] == 'x' && "x86_64"@[1] == '8' && "x86_64"@[2] == '6'
            && "x86_64"@[3] == '_' && "x86_64"@[4] == '6' && "x86_64"@[5] == '4',
        "pc"@.len() == 2 && "pc"@[0] == 'p' && "pc"@[1] == 'c',
        "pc98"@.len() == 4 && "pc98"@[0] == 'p' && "pc98"@[1] == 'c' && "pc98"@[2] == '9'
            && "pc98"@[3] == '8',
        "i386"@.len() == 4 && "i386"@[0] == 'i' && "i386"@[1] == '3' && "i386"@[2] == '8'
            && "i386"@[3] == '6',
        "x64"@.len() == 3 && "x64"@[0] == 'x' && "x64"@[1] == '6' && "x64"@[2] == '4',
        "amd64"@.len() == 5 && "amd64"@[0] == 'a' && "amd64"@[1] == 'm' && "amd64"@[2] == 'd'
            && "amd64"@[3] == '6' && "amd64"@[4] == '4',
        "unknown"@.len() == 7 && "unknown"@[0] == 'u' && "unknown"@[1] == 'n'
            && "unknown"@[2] == 'k' && "unknown"@[3] == 'n' && "unknown"@[4] == 'o'
            && "unknown"@[5] == 'w' && "unknown"@[6] == 'n',
        "digital"@.len() == 7 && "digital"@[0] == 'd' && "digital"@[1] == 'i'
            && "digital"@[2] == 'g' && "digital"@[3] == 'i' && "digital"@[4] == 't'
            && "digital"@[5] == 'a' && "digital"@[6] == 'l',
        "dec"@.len() == 3 && "dec"@[0] == 'd' && "dec"@[1] == 'e' && "dec"@[2] == 'c',
        "commodore"@.len() == 9 && "commodore"@[0] == 'c' && "commodore"@[1] == 'o'
            && "commodore"@[2] == 'm' && "commodore"@[3] == 'm' && "commodore"@[4] == 'o'
            && "commodore"@[5] == 'd' && "commodore"@[6] == 'o' && "commodore"@[7] == 'r'
            && "commodore"@[8] == 'e',
        "cbm"@.len() == 3 && "cbm"@[0] == 'c' && "cbm"@[1] == 'b' && "cbm"@[2] == 'm',
{
    reveal_strlit("w89k");
    reveal_strlit("hppa1.1");
    reveal_strlit("winbond");
    reveal_strlit("x86_64");
    reveal_strlit("pc");
    reveal_strlit("pc98");
    reveal_strlit("i386");
    reveal_strlit("x64");
    reveal_strlit("amd64");
    reveal_strlit("unknown");
    reveal_strlit("digital");
    reveal_strlit("dec");
    reveal_strlit("commodore");
    reveal_strlit("cbm");
}

/// The words of the alias resolver.
pub proof fn lemma_resolve_words()
    ensures
        "convex"@.len() == 6 && "convex"@[0] == 'c' && "convex"@[1] == 'o' && "convex"@[2] == 'n'
            && "convex"@[3] == 'v' && "convex"@[4] == 'e' && "convex"@[5] == 'x',
        "decstation"@.len() == 10 && "decstation"@[0] == 'd' && "decstation"@[1] == 'e'
            && "decstation"@[2] == 'c' && "decstation"@[3] == 's' && "decstation"@[4] == 't'
            && "decstation"@[5] == 'a' && "decstation"@[6] == 't' && "decstation"@[7] == 'i'
            && "decstation"@[8] == 'o' && "decstation"@[9] == 'n',
        "3100"@.len() == 4 && "3100"@[0] == '3' && "3100"@[1] == '1' && "3100"@[2] == '0'
            && "3100"@[3] == '0',
        "mips-dec"@.len() == 8 && "mips-dec"@[0] == 'm' && "mips-dec"@[1] == 'i'
            && "mips-dec"@[2] == 'p' && "mips-dec"@[3] == 's' && "mips-dec"@[4] == '-'
            && "mips-dec"@[5] == 'd' && "mips-dec"@[6] == 'e' && "mips-dec"@[7] == 'c',
        "386bsd"@.len() == 6 && "386bsd"@[0] == '3' && "386bsd"@[1] == '8' && "386bsd"@[2] == '6'
            && "386bsd"@[3] == 'b' && "386bsd"@[4] == 's' && "386bsd"@[5] == 'd',
        "i386-pc"@.len() == 7 && "i386-pc"@[0] == 'i' && "i386-pc"@[1] == '3'
            && "i386-pc"@[2] == '8' && "i386-pc"@[3] == '6' && "i386-pc"@[4] == '-'
            && "i386-pc"@[5] == 'p' && "i386-pc"@[6] == 'c',
        "bsd"@.len() == 3 && "bsd"@[0] == 'b' && "bsd"@[1] == 's' && "bsd"@[2] == 'd',
        "android"@.len() == 7 && "android"@[0] == 'a' && "android"@[1] == 'n'
            && "android"@[2] == 'd' && "android"@[3] == 'r' && "android"@[4] == 'o'
            && "android"@[5] == 'i' && "android"@[6] == 'd',
        "linux"@.len() == 5 && "linux"@[0] == 'l' && "linux"@[1] == 'i' && "linux"@[2] == 'n'
            && "linux"@[3] == 'u' && "linux"@[4] == 'x',
        "linux-android"@.len() == 13 && "linux-android"@[0] == 'l' && "linux-android"@[1] == 'i'
            && "linux-android"@[2] == 'n' && "linux-android"@[3] == 'u'
            && "linux-android"@[4] == 'x' && "linux-android"@[5] == '-'
            && "linux-android"@[6] == 'a' && "linux-android"@[7] == 'n'
            && "linux-android"@[8] == 'd' && "linux-android"@[9] == 'r'
            && "linux-android"@[10] == 'o' && "linux-android"@[11] == 'i'
            && "linux-android"@[12] == 'd',
        "unknown"@.len() == 7 && "unknown"@[0] == 'u' && "unknown"@[1] == 'n'
            && "unknown"@[2] == 'k' && "unknown"@[3] == 'n' && "unknown"@[4] == 'o'
            && "unknown"@[5] == 'w' && "unknown"@[6] == 'n',
        "tock"@.len() == 4 && "tock"@[0] == 't' && "tock"@[1] == 'o' && "tock"@[2] == 'c'
            && "tock"@[3] == 'k',
        "zephyr"@.len() == 6 && "zephyr"@[0] == 'z' && "zephyr"@[1] == 'e' && "zephyr"@[2] == 'p'
            && "zephyr"@[3] == 'h' && "zephyr"@[4] == 'y' && "zephyr"@[5] == 'r',
{
    reveal_strlit("convex");
    reveal_strlit("decstation");
    reveal_strlit("3100");
    reveal_strlit("mips-dec");
    reveal_strlit("386bsd");
    reveal_strlit("i386-pc");
    reveal_strlit("bsd");
    reveal_strlit("android");
    reveal_strlit("linux");
    reveal_strlit("linux-android");
    reveal_strlit("unknown");
    reveal_strlit("tock");
    reveal_strlit("zephyr");
}

/// The cpus that the validator asks for by name.
pub proof fn lemma_cpu_words()
    ensures
        "linux"@.len() == 5 && "linux"@[0] == 'l' && "linux"@[1] == 'i' && "linux"@[2] == 'n'
            && "linux"@[3] == 'u' && "linux"@[4] == 'x',
        "uclinux"@.len() == 7 && "uclinux"@[0] == 'u' && "uclinux"@[1] == 'c'
            && "uclinux"@[2] == 'l' && "uclinux"@[3] == 'i' && "uclinux"@[4] == 'n'
            && "uclinux"@[5] == 'u' && "uclinux"@[6] == 'x',
        "ironclad"@.len() == 8 && "ironclad"@[0] == 'i' && "ironclad"@[1] == 'r'
            && "ironclad"@[2] == 'o' && "ironclad"@[3] == 'n' && "ironclad"@[4] == 'c'
            && "ironclad"@[5] == 'l' && "ironclad"@[6] == 'a' && "ironclad"@[7] == 'd',
        "none"@.len() == 4 && "none"@[0] == 'n' && "none"@[1] == 'o' && "none"@[2] == 'n'
            && "none"@[3] == 'e',
        "javascript"@.len() == 10 && "javascript"@[0] == 'j' && "javascript"@[1] == 'a'
            && "javascript"@[2] == 'v' && "javascript"@[3] == 'a' && "javascript"@[4] == 's'
            && "javascript"@[5] == 'c' && "javascript"@[6] == 'r' && "javascript"@[7] == 'i'
            && "javascript"@[8] == 'p' && "javascript"@[9] == 't',
        "ghcjs"@.len() == 5 && "ghcjs"@[0] == 'g' && "ghcjs"@[1] == 'h' && "ghcjs"@[2] == 'c'
            && "ghcjs"@[3] == 'j' && "ghcjs"@[4] == 's',
        "arm"@.len() == 3 && "arm"@[0] == 'a' && "arm"@[1] == 'r' && "arm"@[2] == 'm',
{
    reveal_strlit("linux");
    reveal_strlit("uclinux");
    reveal_strlit("ironclad");
    reveal_strlit("none");
    reveal_strlit("javascript");
    reveal_strlit("ghcjs");
    reveal_strlit("arm");
}

/// The kernels and systems that are written as a pair.
pub proof fn lemma_compound_words()
    ensures
        "cloudabi"@.len() == 8 && "cloudabi"@[0] == 'c' && "cloudabi"@[1] == 'l'
            && "cloudabi"@[2] == 'o' && "cloudabi"@[3] == 'u' && "cloudabi"@[4] == 'd'
            && "cloudabi"@[5] == 'a' && "cloudabi"@[6] == 'b' && "cloudabi"@[7] == 'i',
        "kfreebsd"@.len() == 8 && "kfreebsd"@[0] == 'k' && "kfreebsd"@[1] == 'f'
            && "kfreebsd"@[2] == 'r' && "kfreebsd"@[3] == 'e' && "kfreebsd"@[4] == 'e'
            && "kfreebsd"@[5] == 'b' && "kfreebsd"@[6] == 's' && "kfreebsd"@[7] == 'd',
        "knetbsd"@.len() == 7 && "knetbsd"@[0] == 'k' && "knetbsd"@[1] == 'n'
            && "knetbsd"@[2] == 'e' && "knetbsd"@[3] == 't' && "knetbsd"@[4] == 'b'
            && "knetbsd"@[5] == 's' && "knetbsd"@[6] == 'd',
        "kopensolaris"@.len() == 12 && "kopensolaris"@[0] == 'k' && "kopensolaris"@[1] == 'o'
            && "kopensolaris"@[2] == 'p' && "kopensolaris"@[3] == 'e' && "kopensolaris"@[4] == 'n'
            && "kopensolaris"@[5] == 's' && "kopensolaris"@[6] == 'o' && "kopensolaris"@[7] == 'l'
            && "kopensolaris"@[8] == 'a' && "kopensolaris"@[9] == 'r' && "kopensolaris"@[10] == 'i'
            && "kopensolaris"@[11] == 's',
        "ironclad"@.len() == 8 && "ironclad"@[0] == 'i' && "ironclad"@[1] == 'r'
            && "ironclad"@[2] == 'o' && "ironclad"@[3] == 'n' && "ironclad"@[4] == 'c'
            && "ironclad"@[5] == 'l' && "ironclad"@[6] == 'a' && "ironclad"@[7] == 'd',
        "linux"@.len() == 5 && "linux"@[0] == 'l' && "linux"@[1] == 'i' && "linux"@[2] == 'n'
            && "linux"@[3] == 'u' && "linux"@[4] == 'x',
        "managarm"@.len() == 8 && "managarm"@[0] == 'm' && "managarm"@[1] == 'a'
            && "managarm"@[2] == 'n' && "managarm"@[3] == 'a' && "managarm"@[4] == 'g'
            && "managarm"@[5] == 'a' && "managarm"@[6] == 'r' && "managarm"@[7] == 'm',
        "netbsd"@.len() == 6 && "netbsd"@[0] == 'n' && "netbsd"@[1] == 'e' && "netbsd"@[2] == 't'
            && "netbsd"@[3] == 'b' && "netbsd"@[4] == 's' && "netbsd"@[5] == 'd',
        "nto"@.len() == 3 && "nto"@[0] == 'n' && "nto"@[1] == 't' && "nto"@[2] == 'o',
        "os2"@.len() == 3 && "os2"@[0] == 'o' && "os2"@[1] == 's' && "os2"@[2] == '2',
        "rtmk"@.len() == 4 && "rtmk"@[0] == 'r' && "rtmk"@[1] == 't' && "rtmk"@[2] == 'm'
            && "rtmk"@[3] == 'k',
        "storm"@.len() == 5 && "storm"@[0] == 's' && "storm"@[1] == 't' && "storm"@[2] == 'o'
            && "storm"@[3] == 'r' && "storm"@[4] == 'm',
        "uclinux"@.len() == 7 && "uclinux"@[0] == 'u' && "uclinux"@[1] == 'c'
            && "uclinux"@[2] == 'l' && "uclinux"@[3] == 'i' && "uclinux"@[4] == 'n'
            && "uclinux"@[5] == 'u' && "uclinux"@[6] == 'x',
        "windows"@.len() == 7 && "windows"@[0] == 'w' && "windows"@[1] == 'i'
            && "windows"@[2] == 'n' && "windows"@[3] == 'd' && "windows"@[4] == 'o'
            && "windows"@[5] == 'w' && "windows"@[6] == 's',
        "eabi"@.len() == 4 && "eabi"@[0] == 'e' && "eabi"@[1] == 'a' && "eabi"@[2] == 'b'
            && "eabi"@[3] == 'i',
        "gnu"@.len() == 3 && "gnu"@[0] == 'g' && "gnu"@[1] == 'n' && "gnu"@[2] == 'u',
        "qnx"@.len() == 3 && "qnx"@[0] == 'q' && "qnx"@[1] == 'n' && "qnx"@[2] == 'x',
        "emx"@.len() == 3 && "emx"@[0] == 'e' && "emx"@[1] == 'm' && "emx"@[2] == 'x',
        "nova"@.len() == 4 && "nova"@[0] == 'n' && "nova"@[1] == 'o' && "nova"@[2] == 'v'
            && "nova"@[3] == 'a',
        "chaos"@.len() == 5 && "chaos"@[0] == 'c' && "chaos"@[1] == 'h' && "chaos"@[2] == 'a'
            && "chaos"@[3] == 'o' && "chaos"@[4] == 's',
        "uclibc"@.len() == 6 && "uclibc"@[0] == 'u' && "uclibc"@[1] == 'c' && "uclibc"@[2] == 'l'
            && "uclibc"@[3] == 'i' && "uclibc"@[4] == 'b' && "uclibc"@[5] == 'c',
        "android"@.len() == 7 && "android"@[0] == 'a' && "android"@[1] == 'n'
            && "android"@[2] == 'd' && "android"@[3] == 'r' && "android"@[4] == 'o'
            && "android"@[5] == 'i' && "android"@[6] == 'd',
{
    reveal_strlit("cloudabi");
    reveal_strlit("kfreebsd");
    reveal_strlit("knetbsd");
    reveal_strlit("kopensolaris");
    reveal_strlit("ironclad");
    reveal_strlit("linux");
    reveal_strlit("managarm");
    reveal_strlit("netbsd");
    reveal_strlit("nto");
    reveal_strlit("os2");
    reveal_strlit("rtmk");
    reveal_strlit("storm");
    reveal_strlit("uclinux");
    reveal_strlit("windows");
    reveal_strlit("eabi");
    reveal_strlit("gnu");
    reveal_strlit("qnx");
    reveal_strlit("emx");
    reveal_strlit("nova");
    reveal_strlit("chaos");
    reveal_strlit("uclibc");
    reveal_strlit("android");
}

/// The words that hold no delimiter, and those that hold one.
pub proof fn lemma_plain_words()
    ensures
        is_plain("unknown"@),
        is_plain("convex"@),
        is_plain("bsd"@),
        is_plain("dec"@),
        is_plain("cbm"@),
        is_plain("pc"@),
        is_plain("winbond"@),
        is_plain("hppa1.1"@),
        is_plain("i386"@),
        is_plain("x86_64"@),
        is_plain("w89k"@),
        is_plain("pc98"@),
        is_plain("x64"@),
        is_plain("amd64"@),
        is_plain("linux"@),
        is_plain("uclinux"@),
        is_plain("ironclad"@),
        is_plain("none"@),
        is_plain("elf"@),
        is_plain("gnu/linux"@),
        is_plain("nto"@),
        is_plain("managarm"@),
        is_plain("mips"@),
        is_plain("os2"@),
        is_plain("emx"@),
        "mips-dec"@ == joined("mips"@, "dec"@),
        "i386-pc"@ == joined("i386"@, "pc"@),
        "linux-android"@ == joined("linux"@, "android"@),
        "os2-emx"@ == joined("os2"@, "emx"@),
        "nto-qnx"@ == joined("nto"@, "qnx"@),
{
    reveal_strlit("unknown");
    reveal_strlit("convex");
    reveal_strlit("bsd");
    reveal_strlit("dec");
    reveal_strlit("cbm");
    reveal_strlit("pc");
    reveal_strlit("winbond");
    reveal_strlit("hppa1.1");
    reveal_strlit("i386");
    reveal_strlit("x86_64");
    reveal_strlit("w89k");
    reveal_strlit("pc98");
    reveal_strlit("x64");
    reveal_strlit("amd64");
    reveal_strlit("linux");
    reveal_strlit("uclinux");
    reveal_strlit("ironclad");
    reveal_strlit("none");
    reveal_strlit("elf");
    reveal_strlit("gnu/linux");
    reveal_strlit("nto");
    reveal_strlit("managarm");
    reveal_strlit("mips");
    reveal_strlit("os2");
    reveal_strlit("emx");
    reveal_strlit("mips-dec");
    reveal_strlit("i386-pc");
    reveal_strlit("linux-android");
    reveal_strlit("android");
    reveal_strlit("os2-emx");
    reveal_strlit("nto-qnx");
    reveal_strlit("qnx");
    reveal_with_fuel(head_len, 12);
    lemma_head_len("unknown"@);
    lemma_head_len("convex"@);
    lemma_head_len("bsd"@);
    lemma_head_len("dec"@);
    lemma_head_len("cbm"@);
    lemma_head_len("pc"@);
    lemma_head_len("winbond"@);
    lemma_head_len("hppa1.1"@);
    lemma_head_len("i386"@);
    lemma_head_len("x86_64"@);
    lemma_head_len("w89k"@);
    lemma_head_len("pc98"@);
    lemma_head_len("x64"@);
    lemma_head_len("amd64"@);
    lemma_head_len("linux"@);
    lemma_head_len("uclinux"@);
    lemma_head_len("ironclad"@);
    lemma_head_len("none"@);
    lemma_head_len("elf"@);
    lemma_head_len("gnu/linux"@);
    lemma_head_len("nto"@);
    lemma_head_len("managarm"@);
    lemma_head_len("mips"@);
    lemma_head_len("os2"@);
    lemma_head_len("emx"@);
    assert("mips-dec"@ =~= joined("mips"@, "dec"@));
    assert("i386-pc"@ =~= joined("i386"@, "pc"@));
    assert("linux-android"@ =~= joined("linux"@, "android"@));
    assert("os2-emx"@ =~= joined("os2"@, "emx"@));
    assert("nto-qnx"@ =~= joined("nto"@, "qnx"@));
}

} // verus!
