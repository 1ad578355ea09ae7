use config_sub::canonical::canonicalize;
use config_sub::formatter::add_part;
use config_sub::machine::{canonical_vendor, machine_split, normalize_machine};
use config_sub::os::{normalize_os, respell};
use config_sub::resolve::resolve;
use config_sub::split::{
    cut, first_delimiter, is_local, join, join_str, split, split_fields, Fields, Split,
};
use config_sub::text::{
    append, append_str, chars_of, contains, copy_of, equals, prefix_of, starts_with, string_of,
    suffix_of,
};
use config_sub::Error;

fn t(s: &str) -> Vec<char> {
    s.chars().collect()
}

fn format(cpu: &[char], vendor: &[char], kernel: &[char], os: &[char], f: &[char]) -> Vec<char> {
    config_sub::formatter::format(cpu, vendor, kernel, os, f)
}

fn pair(a: &str, b: &str) -> (Vec<char>, Vec<char>) {
    (t(a), t(b))
}

#[test]
fn text_goes_to_characters_and_back() {
    assert_eq!(chars_of("a-b"), vec!['a', '-', 'b']);
    assert_eq!(chars_of(""), Vec::<char>::new());
    assert_eq!(chars_of("\u{e9}\u{1f600}"), vec!['\u{e9}', '\u{1f600}']);
    assert_eq!(string_of(&['a', '-', 'b']), "a-b");
    assert_eq!(string_of(&[]), "");
    assert_eq!(string_of(&chars_of("linux-\u{fc}")), "linux-\u{fc}");
    assert_eq!(copy_of(&t("abc")), t("abc"));
}

#[test]
fn text_is_appended_at_the_end() {
    let mut v = t("ab");
    append(&mut v, &t("cd"));
    assert_eq!(v, t("abcd"));
    append(&mut v, &[]);
    assert_eq!(v, t("abcd"));
    append_str(&mut v, "-ef");
    assert_eq!(v, t("abcd-ef"));
    append_str(&mut v, "");
    assert_eq!(v, t("abcd-ef"));
}

#[test]
fn text_is_cut_at_a_position() {
    assert_eq!(prefix_of(&t("abcd"), 0), t(""));
    assert_eq!(prefix_of(&t("abcd"), 3), t("abc"));
    assert_eq!(prefix_of(&t("abcd"), 4), t("abcd"));
    assert_eq!(suffix_of(&t("abcd"), 0), t("abcd"));
    assert_eq!(suffix_of(&t("abcd"), 3), t("d"));
    assert_eq!(suffix_of(&t("abcd"), 4), t(""));
}

#[test]
fn beginnings_are_compared_by_characters() {
    assert!(starts_with(&t("linux"), "linux"));
    assert!(starts_with(&t("linuxeabi"), "linux"));
    assert!(starts_with(&t("linux"), ""));
    assert!(starts_with(&t(""), ""));
    assert!(!starts_with(&t("linu"), "linux"));
    assert!(!starts_with(&t("Linux"), "linux"));
    assert!(!starts_with(&t("xlinux"), "linux"));
    assert!(!starts_with(&t(""), "linux"));
}

#[test]
fn words_are_compared_as_wholes() {
    assert!(equals(&t("linux"), "linux"));
    assert!(equals(&t(""), ""));
    assert!(!equals(&t("linuxx"), "linux"));
    assert!(!equals(&t("linu"), "linux"));
    assert!(!equals(&t("linus"), "linux"));
    assert!(!equals(&t(""), "linux"));
    assert!(!equals(&t("linux"), ""));
}

#[test]
fn a_run_of_characters_is_found_anywhere() {
    assert!(contains(&t("local"), &t("local")));
    assert!(contains(&t("xxlocal"), &t("local")));
    assert!(contains(&t("localxx"), &t("local")));
    assert!(contains(&t("lolocalal"), &t("local")));
    assert!(contains(&t("abc"), &t("")));
    assert!(contains(&t(""), &t("")));
    assert!(!contains(&t("loca"), &t("local")));
    assert!(!contains(&t("loc-al"), &t("local")));
    assert!(!contains(&t(""), &t("local")));
    assert!(!contains(&t("lacol"), &t("local")));
}

#[test]
fn local_is_a_tag_anywhere_in_the_name() {
    assert!(is_local(&t("local")));
    assert!(is_local(&t("i386-pc-local")));
    assert!(is_local(&t("mylocalbox")));
    assert!(!is_local(&t("i386-pc-linux")));
    assert!(!is_local(&t("lo-cal")));
    assert!(!is_local(&t("LOCAL")));
}

#[test]
fn the_first_delimiter_is_found() {
    assert_eq!(first_delimiter(&t("")), 0);
    assert_eq!(first_delimiter(&t("abc")), 3);
    assert_eq!(first_delimiter(&t("-abc")), 0);
    assert_eq!(first_delimiter(&t("ab-c-d")), 2);
    assert_eq!(first_delimiter(&t("abc-")), 3);
    assert_eq!(first_delimiter(&t("a_b.c/d")), 7);
}

#[test]
fn a_text_is_cut_at_its_first_delimiter() {
    assert_eq!(cut(&t("abc")), (t("abc"), None));
    assert_eq!(cut(&t("")), (t(""), None));
    assert_eq!(cut(&t("a-b-c")), (t("a"), Some(t("b-c"))));
    assert_eq!(cut(&t("-b")), (t(""), Some(t("b"))));
    assert_eq!(cut(&t("a-")), (t("a"), Some(t(""))));
}

#[test]
fn texts_are_joined_with_one_delimiter() {
    assert_eq!(join(&t("a"), &t("b")), t("a-b"));
    assert_eq!(join(&t(""), &t("")), t("-"));
    assert_eq!(join(&t("a-b"), &t("c")), t("a-b-c"));
    assert_eq!(join_str(&t("c1"), "convex"), t("c1-convex"));
    assert_eq!(join_str(&t(""), "unknown"), t("-unknown"));
}

#[test]
fn an_identifier_is_split_into_one_to_four_fields() {
    assert_eq!(split_fields(&t("")), Ok(Fields::One(t(""))));
    assert_eq!(split_fields(&t("vax")), Ok(Fields::One(t("vax"))));
    assert_eq!(split_fields(&t("a-b")), Ok(Fields::Two(t("a"), t("b"))));
    assert_eq!(split_fields(&t("-")), Ok(Fields::Two(t(""), t(""))));
    assert_eq!(split_fields(&t("a-b-c")), Ok(Fields::Three(t("a"), t("b"), t("c"))));
    assert_eq!(split_fields(&t("a--c")), Ok(Fields::Three(t("a"), t(""), t("c"))));
    assert_eq!(split_fields(&t("a-b-c-d")), Ok(Fields::Four(t("a"), t("b"), t("c"), t("d"))));
    assert_eq!(split_fields(&t("---")), Ok(Fields::Four(t(""), t(""), t(""), t(""))));
    assert_eq!(split_fields(&t("a-b-c-d-e")), Err(Error::TooManyComponents));
    assert_eq!(split_fields(&t("a-b-c-d-")), Err(Error::TooManyComponents));
    assert_eq!(split_fields(&t("a-b-c-d-e-f-g")), Err(Error::TooManyComponents));
    assert_eq!(split_fields(&t("a-b-c-d-local")), Err(Error::TooManyComponents));
}

#[test]
fn the_splitter_passes_local_names_and_cuts_the_others() {
    assert_eq!(split(&t("local")), Ok(Split::Local));
    assert_eq!(split(&t("i386-pc-local")), Ok(Split::Local));
    assert_eq!(split(&t("a-b-c-d-e-local")), Ok(Split::Local));
    assert_eq!(split(&t("a-b-c-d-e-f-localhost-g")), Ok(Split::Local));
    assert_eq!(split(&t("vax")), Ok(Split::Fields(Fields::One(t("vax")))));
    assert_eq!(split(&t("")), Ok(Split::Fields(Fields::One(t("")))));
    assert_eq!(split(&t("a-b")), Ok(Split::Fields(Fields::Two(t("a"), t("b")))));
    assert_eq!(
        split(&t("a-b-c-d")),
        Ok(Split::Fields(Fields::Four(t("a"), t("b"), t("c"), t("d"))))
    );
    assert_eq!(split(&t("lo-cal")), Ok(Split::Fields(Fields::Two(t("lo"), t("cal")))));
    assert_eq!(split(&t("a-b-c-d-e")), Err(Error::TooManyComponents));
    assert_eq!(split(&t("l-o-c-a-l")), Err(Error::TooManyComponents));
}

#[test]
fn four_fields_are_machine_and_system() {
    assert_eq!(
        resolve(Fields::Four(t("a"), t("b"), t("c"), t("d"))),
        Ok(pair("a-b", "c-d"))
    );
    assert_eq!(
        resolve(Fields::Four(t("x"), t("linux"), t("windows"), t("sun"))),
        Ok(pair("x-linux", "windows-sun"))
    );
    assert_eq!(resolve(Fields::Four(t(""), t(""), t(""), t(""))), Ok(pair("-", "-")));
}

#[test]
fn each_arity_is_resolved_by_its_own_table() {
    assert_eq!(resolve(Fields::One(t("386bsd"))), Ok(pair("i386-pc", "bsd")));
    assert_eq!(resolve(Fields::One(t("vax"))), Err(Error::UnknownAlias));
    assert_eq!(resolve(Fields::Two(t("sparc"), t("sun"))), Ok(pair("sparc-sun", "")));
    assert_eq!(resolve(Fields::Two(t("linux"), t("musl"))), Ok(pair("linux", "musl")));
    assert_eq!(
        resolve(Fields::Three(t("arm"), t("linux"), t("musl"))),
        Ok(pair("arm", "linux-musl"))
    );
    assert_eq!(
        resolve(Fields::Three(t("arm"), t("acme"), t("musl"))),
        Ok(pair("arm-acme", "musl"))
    );
}

#[test]
fn a_machine_is_cut_at_its_first_delimiter() {
    assert_eq!(machine_split(t("sparc-sun")), pair("sparc", "sun"));
    assert_eq!(machine_split(t("sparc")), pair("sparc", "unknown"));
    assert_eq!(machine_split(t("")), pair("", "unknown"));
    assert_eq!(machine_split(t("-sun")), pair("", "sun"));
    assert_eq!(machine_split(t("sparc-")), pair("sparc", ""));
    assert_eq!(machine_split(t("a-b-c")), pair("a", "b-c"));
    assert_eq!(machine_split(t("x86_64-acme")), pair("x86_64", "acme"));
    assert_eq!(machine_split(t("w89k-acme")), pair("w89k", "acme"));
}

#[test]
fn vendors_have_one_spelling() {
    assert_eq!(canonical_vendor(t("digital")), t("dec"));
    assert_eq!(canonical_vendor(t("digitalequipment")), t("dec"));
    assert_eq!(canonical_vendor(t("commodore")), t("cbm"));
    assert_eq!(canonical_vendor(t("commodore64")), t("cbm"));
    assert_eq!(canonical_vendor(t("dec")), t("dec"));
    assert_eq!(canonical_vendor(t("cbm")), t("cbm"));
    assert_eq!(canonical_vendor(t("digita")), t("digita"));
    assert_eq!(canonical_vendor(t("sun")), t("sun"));
    assert_eq!(canonical_vendor(t("")), t(""));
    assert_eq!(normalize_machine(t("vax-digital")), pair("vax", "dec"));
    assert_eq!(normalize_machine(t("m68k-commodore")), pair("m68k", "cbm"));
    assert_eq!(normalize_machine(t("m68k-amiga")), pair("m68k", "amiga"));
}

#[test]
fn a_beginning_is_respelled() {
    assert_eq!(respell(&t("linuxeabi"), "linux", "gnu"), t("gnueabi"));
    assert_eq!(respell(&t("linux"), "linux", "gnu"), t("gnu"));
    assert_eq!(respell(&t("linuxlinux"), "linux", "gnu"), t("gnulinux"));
    assert_eq!(respell(&t("abc"), "", "x"), t("xabc"));
    assert_eq!(respell(&t("abc"), "abc", ""), t(""));
}

#[test]
fn an_empty_system_names_nothing() {
    assert_eq!(normalize_os(t(""), &t("sparc")), (t(""), t(""), t("")));
    assert_eq!(normalize_os(t(""), &t("arm")), (t(""), t(""), t("")));
}

#[test]
fn a_part_is_added_behind_a_delimiter_unless_it_is_empty() {
    let mut name = t("a-b");
    add_part(&mut name, &t(""));
    assert_eq!(name, t("a-b"));
    add_part(&mut name, &t("c"));
    assert_eq!(name, t("a-b-c"));
}

#[test]
fn a_name_shows_what_is_not_empty() {
    let e = t("");
    assert_eq!(format(&t("c"), &t("v"), &t("k"), &t("o"), &t("f")), t("c-v-k-o-f"));
    assert_eq!(format(&t("c"), &t("v"), &t("k"), &t("o"), &e), t("c-v-k-o"));
    assert_eq!(format(&t("c"), &t("v"), &t("k"), &e, &t("f")), t("c-v-k-f"));
    assert_eq!(format(&t("c"), &t("v"), &e, &t("o"), &t("f")), t("c-v-o-f"));
    assert_eq!(format(&t("c"), &t("v"), &t("k"), &e, &e), t("c-v-k"));
    assert_eq!(format(&t("c"), &t("v"), &e, &t("o"), &e), t("c-v-o"));
    assert_eq!(format(&t("c"), &t("v"), &e, &e, &t("f")), t("c-v-f"));
    assert_eq!(format(&t("c"), &t("v"), &e, &e, &e), t("c-v"));
    assert_eq!(format(&e, &e, &e, &e, &e), t("-"));
    assert_eq!(format(&e, &t("v"), &e, &e, &e), t("-v"));
    assert_eq!(format(&t("c"), &e, &e, &t("o"), &e), t("c--o"));
}

#[test]
fn characters_are_canonicalized_as_strings_are() {
    assert_eq!(canonicalize(&t("linux-musl")), Ok(t("linux-unknown-musl")));
    assert_eq!(canonicalize(&t("my-local")), Ok(t("my-local")));
    assert_eq!(canonicalize(&t("a-b-c-d-e")), Err(Error::TooManyComponents));
    assert_eq!(canonicalize(&t("vax")), Err(Error::UnknownAlias));
    assert_eq!(
        canonicalize(&t("sparc-sunos4")),
        Err(Error::OsNotRecognized("sunos4".to_string()))
    );
}
