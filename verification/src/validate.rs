//! The validator: whether a cpu, a kernel, an operating system and an
//! object format may stand together in one name. Four checks are made in
//! order, and the first that fails gives the failure.

use crate::error::{Error, Failure};
use crate::os::{is_object_format_name, object_format_name};
use crate::text::{equals, starts_with, string_of};
use vstd::prelude::*;

verus! {

/// Whether `os` is the name of an operating system that is known.
pub open spec fn recognized_os(os: Seq<char>) -> bool {
    ||| "llvm"@.is_prefix_of(os)
    ||| "musl"@.is_prefix_of(os)
    ||| "newlibc"@.is_prefix_of(os)
    ||| "relibc"@.is_prefix_of(os)
    ||| "uclibc"@.is_prefix_of(os)
    ||| "eabi"@.is_prefix_of(os)
    ||| "gnueabi"@.is_prefix_of(os)
    ||| os == "simlinux"@
    ||| os == "simwindows"@
    ||| os == "spe"@
    ||| os == "ghcjs"@
    ||| os == "uefi"@
    ||| os == "none"@
    ||| "kernel"@.is_prefix_of(os)
    ||| "msvc"@.is_prefix_of(os)
}

/// Whether `os` is a C library that runs on Linux.
pub open spec fn linux_libc(os: Seq<char>) -> bool {
    ||| "gnu"@.is_prefix_of(os)
    ||| "android"@.is_prefix_of(os)
    ||| "dietlibc"@.is_prefix_of(os)
    ||| "llvm"@.is_prefix_of(os)
    ||| "mlibc"@.is_prefix_of(os)
    ||| "musl"@.is_prefix_of(os)
    ||| "newlib"@.is_prefix_of(os)
    ||| "relibc"@.is_prefix_of(os)
    ||| "uclibc"@.is_prefix_of(os)
    ||| "ohos"@.is_prefix_of(os)
}

/// Whether `os` is a C library that runs on uClinux.
pub open spec fn uclinux_libc(os: Seq<char>) -> bool {
    "uclibc"@.is_prefix_of(os) || "gnu"@.is_prefix_of(os)
}

/// The last check: whether this cpu, operating system and object format
/// are known to go together, and if not, what is wrong.
pub open spec fn pairing(cpu: Seq<char>, kernel: Seq<char>, os: Seq<char>, format: Seq<char>)
    -> Option<Failure> {
    if format.len() == 0 && cpu == "linux"@ && linux_libc(os) {
        None
    } else if format.len() == 0 && cpu == "uclinux"@ && uclinux_libc(os) {
        None
    } else if format.len() == 0 && cpu == "ironclad"@ && "mlibc"@.is_prefix_of(os) {
        None
    } else if format.len() == 0 && "kernel"@.is_prefix_of(os) {
        if cpu.len() == 0 {
            Some(Failure::OsNeedsExplicitKernel(os))
        } else {
            Some(Failure::KernelDoesNotSupportOs(kernel, os))
        }
    } else if format.len() == 0 && "msvc"@.is_prefix_of(os) {
        Some(Failure::OsNeedsWindows(os))
    } else if cpu == "none"@ && os.len() == 0 {
        None
    } else if cpu.len() == 0 && format.len() == 0 {
        None
    } else if cpu.len() == 0 && os.len() == 0 {
        None
    } else {
        Some(Failure::KernelNotKnownToWorkWithOs(kernel, os))
    }
}

/// What is wrong with these four together, if anything is: an operating
/// system that is missing without an object format, or unknown; an object
/// format that is unknown; `javascript` without `ghcjs` or the reverse; or
/// a combination that the last check refuses.
pub open spec fn verdict(cpu: Seq<char>, kernel: Seq<char>, os: Seq<char>, format: Seq<char>)
    -> Option<Failure> {
    if os.len() == 0 && format.len() == 0 {
        Some(Failure::BlankOsRequiresExplicitObjectFormat)
    } else if os.len() > 0 && !recognized_os(os) {
        Some(Failure::OsNotRecognized(os))
    } else if format.len() > 0 && !object_format_name(format) {
        Some(Failure::ObjectFormatNotRecognized(format))
    } else if (cpu == "javascript"@) != (os == "ghcjs"@) {
        Some(Failure::CpuIncompatibleWithOs(cpu, os))
    } else {
        pairing(cpu, kernel, os, format)
    }
}

/// Whether `os` is a known operating system.
pub fn is_recognized_os(os: &[char]) -> (r: bool)
    ensures
        r == recognized_os(os@),
{
    starts_with(os, "llvm") || starts_with(os, "musl") || starts_with(os, "newlibc")
        || starts_with(os, "relibc") || starts_with(os, "uclibc") || starts_with(os, "eabi")
        || starts_with(os, "gnueabi") || equals(os, "simlinux") || equals(os, "simwindows")
        || equals(os, "spe") || equals(os, "ghcjs") || equals(os, "uefi") || equals(os, "none")
        || starts_with(os, "kernel") || starts_with(os, "msvc")
}

/// Whether `os` is a C library that runs on Linux.
pub fn is_linux_libc(os: &[char]) -> (r: bool)
    ensures
        r == linux_libc(os@),
{
    starts_with(os, "gnu") || starts_with(os, "android") || starts_with(os, "dietlibc")
        || starts_with(os, "llvm") || starts_with(os, "mlibc") || starts_with(os, "musl")
        || starts_with(os, "newlib") || starts_with(os, "relibc") || starts_with(os, "uclibc")
        || starts_with(os, "ohos")
}

/// The last check on a cpu, a kernel, an operating system and an object
/// format.
pub fn check_pairing(cpu: &[char], kernel: &[char], os: &[char], format: &[char]) -> (r: Result<
    (),
    Error,
>)
    ensures
        r is Ok <==> pairing(cpu@, kernel@, os@, format@) is None,
        r is Err ==> Some(r->Err_0@) == pairing(cpu@, kernel@, os@, format@),
{
    let plain = format.len() == 0;
    if plain && equals(cpu, "linux") && is_linux_libc(os) {
        Ok(())
    } else if plain && equals(cpu, "uclinux") && (starts_with(os, "uclibc") || starts_with(
        os,
        "gnu",
    )) {
        Ok(())
    } else if plain && equals(cpu, "ironclad") && starts_with(os, "mlibc") {
        Ok(())
    } else if plain && starts_with(os, "kernel") {
        if cpu.len() == 0 {
            Err(Error::OsNeedsExplicitKernel(string_of(os)))
        } else {
            Err(Error::KernelDoesNotSupportOs(string_of(kernel), string_of(os)))
        }
    } else if plain && starts_with(os, "msvc") {
        Err(Error::OsNeedsWindows(string_of(os)))
    } else if equals(cpu, "none") && os.len() == 0 {
        Ok(())
    } else if cpu.len() == 0 && plain {
        Ok(())
    } else if cpu.len() == 0 && os.len() == 0 {
        Ok(())
    } else {
        Err(Error::KernelNotKnownToWorkWithOs(string_of(kernel), string_of(os)))
    }
}

/// Accepts a cpu, a kernel, an operating system and an object format that
/// may stand together, and says of any others what is wrong with them.
pub fn validate(cpu: &[char], kernel: &[char], os: &[char], format: &[char]) -> (r: Result<
    (),
    Error,
>)
    ensures
        r is Ok <==> verdict(cpu@, kernel@, os@, format@) is None,
        r is Err ==> Some(r->Err_0@) == verdict(cpu@, kernel@, os@, format@),
{
    if os.len() == 0 && format.len() == 0 {
        Err(Error::BlankOsRequiresExplicitObjectFormat)
    } else if os.len() > 0 && !is_recognized_os(os) {
        Err(Error::OsNotRecognized(string_of(os)))
    } else if format.len() > 0 && !is_object_format_name(format) {
        Err(Error::ObjectFormatNotRecognized(string_of(format)))
    } else if equals(cpu, "javascript") != equals(os, "ghcjs") {
        Err(Error::CpuIncompatibleWithOs(string_of(cpu), string_of(os)))
    } else {
        check_pairing(cpu, kernel, os, format)
    }
}

} // verus!
