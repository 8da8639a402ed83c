//! The ways a wallpaper request can fail.
use vstd::prelude::*;

verus! {

/// Why a wallpaper request failed.
#[derive(PartialEq, Eq, Structural, Clone, Copy, Debug)]
pub enum Error {
    /// The desktop identifier could not be read.
    EnvironmentUnavailable,
    /// The desktop identifier names no supported family.
    UnsupportedDesktop,
    /// The family is supported but does not offer this operation.
    UnsupportedOperation,
    /// An external tool exited with a failure or gave unreadable output.
    ExternalToolFailure,
    /// A value read back from a settings store is not properly quoted.
    MalformedValue,
    /// A remote image could not be downloaded.
    DownloadFailure,
}

} // verus!
