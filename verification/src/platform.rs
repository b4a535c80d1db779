//! The host platforms the launcher is built for.

use vstd::prelude::*;

verus! {

/// A host operating system the launcher runs on. The platform decides
/// the name of the distributed binary and the strategy for replacing a
/// running executable.
#[derive(Clone, Copy, Debug, PartialEq, Eq, Structural)]
pub enum Platform {
    /// The target OS whose binaries carry the `.exe` suffix and which
    /// locks a running executable against direct overwrite.
    Windows,
    /// A target OS that allows overwriting a running executable.
    Linux,
    /// A target OS that allows overwriting a running executable.
    Macos,
}

/// The suffix appended to the product name to form the platform's
/// binary name.
pub open spec fn platform_suffix(p: Platform) -> Seq<char> {
    match p {
        Platform::Windows => ".exe"@,
        Platform::Linux => "_linux"@,
        Platform::Macos => "_macos"@,
    }
}

} // verus!
