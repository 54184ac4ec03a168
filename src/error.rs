//! The failures that the library reports.

use vstd::prelude::*;

verus! {

/// Why an operation failed. Variants that carry a `String` hold the
/// underlying cause as text.
#[derive(Clone, Debug, PartialEq, Eq)]
pub enum BundleError {
    /// A filesystem target is missing or of the wrong kind.
    InvalidPath,
    /// The port already has a preview server in the registry.
    PortInUse(u16),
    /// The registry holds no preview server on the port.
    NotFound(u16),
    /// The interpreter could not be run, or it reported a failure.
    RuntimeUnavailable,
    /// The package manager could not be run.
    ToolUnavailable,
    /// The package manager ran and failed; its diagnostic output.
    InstallFailed(String),
    /// The interpreter could not be started as a server.
    SpawnFailed(String),
    /// The server process could not be terminated.
    TerminateFailed(String),
    /// The staging tree could not be reset or created.
    StagingFailed(String),
    /// Project files could not be copied into the staging tree.
    CopyFailed(String),
    /// An artifact could not be written.
    WriteFailed(String),
    /// A target platform tag that no launcher exists for.
    UnsupportedPlatform(String),
    /// Every port of the probed range was taken.
    NoPortAvailable,
}

} // verus!
