//! The ways in which an identifier fails to have a canonical name.

use vstd::prelude::*;

verus! {

/// Why an identifier was rejected. Each failure is final: the same
/// identifier is rejected with the same failure every time.
#[derive(Debug, Clone, PartialEq, Eq, Hash)]
pub enum Error {
    /// The identifier has more than four fields.
    TooManyComponents,
    /// The identifier is a single word that the table of one-word names lacks.
    UnknownAlias,
    /// Neither an operating system nor an object format is named.
    BlankOsRequiresExplicitObjectFormat,
    /// The operating system is none that is known.
    OsNotRecognized(String),
    /// The object format is none that is known.
    ObjectFormatNotRecognized(String),
    /// The cpu and the operating system exclude each other.
    CpuIncompatibleWithOs(String, String),
    /// The operating system is a kernel's library and no kernel is named.
    OsNeedsExplicitKernel(String),
    /// The kernel does not carry this operating system.
    KernelDoesNotSupportOs(String, String),
    /// The operating system exists on Windows only.
    OsNeedsWindows(String),
    /// Nothing is known of this kernel together with this operating system.
    KernelNotKnownToWorkWithOs(String, String),
}

/// What an [`Error`] says, with its texts as sequences of characters.
pub enum Failure {
    TooManyComponents,
    UnknownAlias,
    BlankOsRequiresExplicitObjectFormat,
    OsNotRecognized(Seq<char>),
    ObjectFormatNotRecognized(Seq<char>),
    CpuIncompatibleWithOs(Seq<char>, Seq<char>),
    OsNeedsExplicitKernel(Seq<char>),
    KernelDoesNotSupportOs(Seq<char>, Seq<char>),
    OsNeedsWindows(Seq<char>),
    KernelNotKnownToWorkWithOs(Seq<char>, Seq<char>),
}

impl View for Error {
    type V = Failure;

    open spec fn view(&self) -> Failure {
        match self {
            Error::TooManyComponents => Failure::TooManyComponents,
            Error::UnknownAlias => Failure::UnknownAlias,
            Error::BlankOsRequiresExplicitObjectFormat => {
                Failure::BlankOsRequiresExplicitObjectFormat
            },
            Error::OsNotRecognized(os) => Failure::OsNotRecognized(os@),
            Error::ObjectFormatNotRecognized(format) => Failure::ObjectFormatNotRecognized(
                format@,
            ),
            Error::CpuIncompatibleWithOs(cpu, os) => Failure::CpuIncompatibleWithOs(cpu@, os@),
            Error::OsNeedsExplicitKernel(os) => Failure::OsNeedsExplicitKernel(os@),
            Error::KernelDoesNotSupportOs(kernel, os) => Failure::KernelDoesNotSupportOs(
                kernel@,
                os@,
            ),
            Error::OsNeedsWindows(os) => Failure::OsNeedsWindows(os@),
            Error::KernelNotKnownToWorkWithOs(kernel, os) => Failure::KernelNotKnownToWorkWithOs(
                kernel@,
                os@,
            ),
        }
    }
}

} // verus!
