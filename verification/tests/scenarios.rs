use config_sub::machine::normalize_machine;
use config_sub::os::normalize_os;
use config_sub::{config_sub, Error};

fn ok(name: &str) -> Result<String, Error> {
    Ok(name.to_string())
}

fn text(s: &str) -> Vec<char> {
    s.chars().collect()
}

fn os_not_recognized(os: &str) -> Result<String, Error> {
    Err(Error::OsNotRecognized(os.to_string()))
}

#[test]
fn five_fields_are_too_many() {
    assert_eq!(config_sub("a-b-c-d-e"), Err(Error::TooManyComponents));
    assert_eq!(config_sub("a-b-c-d-e-f"), Err(Error::TooManyComponents));
    assert_eq!(config_sub("----"), Err(Error::TooManyComponents));
    assert_eq!(config_sub("linux-unknown-k-musl-x"), Err(Error::TooManyComponents));
}

#[test]
fn local_names_pass_unchanged() {
    assert_eq!(config_sub("i386-pc-local"), ok("i386-pc-local"));
    assert_eq!(config_sub("local"), ok("local"));
    assert_eq!(config_sub("a-b-c-d-e-local"), ok("a-b-c-d-e-local"));
    assert_eq!(config_sub("not a name, but localised"), ok("not a name, but localised"));
}

#[test]
fn almost_local_names_are_not_local() {
    assert_eq!(config_sub("loca"), Err(Error::UnknownAlias));
    assert_eq!(config_sub("linux-locamusl"), os_not_recognized("locamusl"));
    assert_eq!(config_sub("lo-cal"), os_not_recognized("cal"));
}

#[test]
fn four_field_canonical_names_pass_unchanged() {
    assert_eq!(config_sub("linux-unknown-k-musl"), ok("linux-unknown-k-musl"));
    assert_eq!(config_sub("uclinux-acme-rtos-uclibc9"), ok("uclinux-acme-rtos-uclibc9"));
    assert_eq!(config_sub("none-acme-k-elf"), ok("none-acme-k-elf"));
    assert_eq!(config_sub("-acme-k-coff2"), ok("-acme-k-coff2"));
}

#[test]
fn four_fields_with_gnu_on_linux_are_refused() {
    assert_eq!(config_sub("x86_64-unknown-linux-gnu"), os_not_recognized("gnu-gnu"));
}

#[test]
fn amd64_linux_expands_and_is_refused() {
    let (cpu, vendor) = normalize_machine(text("amd64"));
    assert_eq!((cpu.clone(), vendor), (text("x86_64"), text("pc")));
    assert_eq!(normalize_os(text("linux"), &cpu), (text("linux"), text("gnu"), text("")));
    assert_eq!(config_sub("amd64-linux"), os_not_recognized("gnu"));
}

#[test]
fn w89k_is_made_by_winbond() {
    assert_eq!(normalize_machine(text("w89k")), (text("hppa1.1"), text("winbond")));
    assert_eq!(config_sub("w89k-unknown"), os_not_recognized("unknown"));
    assert_eq!(
        config_sub("w89k-eabi"),
        Err(Error::KernelNotKnownToWorkWithOs("".to_string(), "eabi".to_string()))
    );
}

#[test]
fn linux_refuses_what_is_no_libc() {
    assert_eq!(config_sub("linux-foo"), os_not_recognized("foo"));
    assert_eq!(
        config_sub("linux-eabi"),
        Err(Error::KernelNotKnownToWorkWithOs("".to_string(), "eabi".to_string()))
    );
    assert_eq!(
        config_sub("linux-acme-k-eabi"),
        Err(Error::KernelNotKnownToWorkWithOs("k".to_string(), "eabi".to_string()))
    );
    assert_eq!(
        config_sub("linux-kernel7"),
        Err(Error::KernelDoesNotSupportOs("".to_string(), "kernel7".to_string()))
    );
    assert_eq!(
        config_sub("linux-acme-k-kernel"),
        Err(Error::KernelDoesNotSupportOs("k".to_string(), "kernel".to_string()))
    );
    assert_eq!(config_sub("linux-msvc"), Err(Error::OsNeedsWindows("msvc".to_string())));
}

#[test]
fn accepted_names() {
    assert_eq!(config_sub("linux-musl"), ok("linux-unknown-musl"));
    assert_eq!(config_sub("linux-gnueabihf"), ok("linux-unknown-gnueabihf"));
    assert_eq!(config_sub("linux-digital-k-uclibc"), ok("linux-dec-k-uclibc"));
    assert_eq!(config_sub("linux-commodore64-llvm"), ok("linux-cbm-llvm"));
    assert_eq!(config_sub("uclinux-gnueabi"), ok("uclinux-unknown-gnueabi"));
    assert_eq!(config_sub("-musl"), ok("-unknown-musl"));
    assert_eq!(config_sub("-uefi"), ok("-unknown-uefi"));
    assert_eq!(config_sub("-elf"), ok("-unknown-elf"));
    assert_eq!(config_sub("none-pikeos"), ok("none-unknown-elf"));
    assert_eq!(config_sub("none-pe32"), ok("none-unknown-pe32"));
    assert_eq!(config_sub("none-acme-aout"), ok("none-acme-aout"));
    assert_eq!(config_sub("-windows-musl"), ok("-unknown-windows-musl"));
    assert_eq!(config_sub("linux-zephyr"), os_not_recognized("zephyr"));
}

#[test]
fn a_canonical_name_is_its_own_canonical_name() {
    for x in [
        "linux-musl",
        "linux-gnueabihf",
        "linux-digital-k-uclibc",
        "linux-commodore64-llvm",
        "uclinux-gnueabi",
        "-musl",
        "-uefi",
        "-elf",
        "none-pikeos",
        "none-acme-k-pikeos7",
        "none-pe32",
        "-windows-musl",
        "linux--musl",
        "linux--k-relibc",
        "i386-pc-local",
    ] {
        let y = config_sub(x).unwrap();
        assert_eq!(config_sub(&y), Ok(y.clone()), "{} -> {}", x, y);
    }
}

#[test]
fn a_kernel_known_by_its_beginning_is_written_twice() {
    assert_eq!(config_sub("linux-v-linuxeabi"), ok("linux-v-linux-gnueabi"));
    assert_eq!(config_sub("linux-v-linux-gnueabi"), os_not_recognized("gnu-gnueabi"));
    assert_eq!(config_sub("linux-b-linuxeabi-x"), ok("linux-b-linux-gnueabi-x"));
    assert_eq!(config_sub("linux-b-linux-gnueabi-x"), Err(Error::TooManyComponents));
    assert_eq!(config_sub("-gnu/linuxeabi"), ok("-unknown-linux-gnueabi"));
}

#[test]
fn a_vendor_that_looks_like_a_kernel_is_read_as_one() {
    assert_eq!(config_sub("linux-windows--musl"), ok("linux-windows-musl"));
    assert_eq!(config_sub("linux-windows-musl"), ok("linux-unknown-windows-musl"));
    assert_eq!(config_sub("-cloudabi--eabi"), ok("-cloudabi-eabi"));
    assert_eq!(config_sub("-cloudabi-eabi"), ok("-unknown-cloudabi-eabi"));
}

#[test]
fn every_input_has_an_outcome() {
    assert_eq!(config_sub(""), Err(Error::UnknownAlias));
    assert_eq!(config_sub("386bsd"), os_not_recognized("bsd"));
    assert_eq!(config_sub("linux"), Err(Error::UnknownAlias));
    assert_eq!(config_sub("-"), Err(Error::BlankOsRequiresExplicitObjectFormat));
    assert_eq!(config_sub("--"), Err(Error::BlankOsRequiresExplicitObjectFormat));
    assert_eq!(config_sub("---"), Err(Error::BlankOsRequiresExplicitObjectFormat));
    assert_eq!(config_sub("\u{e9}-\u{fc}"), os_not_recognized("\u{fc}"));
    assert_eq!(config_sub("linux-musl\u{1f600}"), ok("linux-unknown-musl\u{1f600}"));
    assert_eq!(config_sub(" -musl"), Err(Error::KernelNotKnownToWorkWithOs(
        "".to_string(),
        "musl".to_string()
    )));
}

#[test]
fn each_failure_has_an_input() {
    assert_eq!(config_sub("1-2-3-4-5"), Err(Error::TooManyComponents));
    assert_eq!(config_sub("vax"), Err(Error::UnknownAlias));
    assert_eq!(config_sub("m68k-apple"), Err(Error::BlankOsRequiresExplicitObjectFormat));
    assert_eq!(config_sub("sparc-solaris"), os_not_recognized("solaris2"));
    assert_eq!(
        config_sub("javascript-musl"),
        Err(Error::CpuIncompatibleWithOs("javascript".to_string(), "musl".to_string()))
    );
    assert_eq!(
        config_sub("wasm-ghcjs"),
        Err(Error::CpuIncompatibleWithOs("wasm".to_string(), "ghcjs".to_string()))
    );
    assert_eq!(config_sub("-kernel5"), Err(Error::OsNeedsExplicitKernel("kernel5".to_string())));
    assert_eq!(
        config_sub("arm-kernel5"),
        Err(Error::KernelDoesNotSupportOs("".to_string(), "kernel5".to_string()))
    );
    assert_eq!(config_sub("x86-msvc19"), Err(Error::OsNeedsWindows("msvc19".to_string())));
    assert_eq!(
        config_sub("javascript-ghcjs"),
        Err(Error::KernelNotKnownToWorkWithOs("".to_string(), "ghcjs".to_string()))
    );
}
