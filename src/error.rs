//! The errors of a build.

use vstd::prelude::*;

verus! {

/// Why a build did not succeed.
#[derive(Debug)]
pub enum BuildErrorKind {
    /// The companion linking tool did not answer its version query.
    ToolUnavailable(String),
    /// The module directory holds no usable description.
    AnalysisFailed(String),
    /// The naming-slot lock could not be created, acquired or released.
    LockFailed(String),
    /// The naming slot or the module's manifest could not be read or written.
    ManifestIoFailed(String),
    /// The module holds both a library and a binary and no crate type was set.
    MissingCrateType,
    /// The driver could not be started.
    CommandFailed(String),
    /// The driver exited with an error; the filtered diagnostic lines.
    BuildFailed(Vec<String>),
    /// What the driver left on disk is not what it promised.
    InternalError(String),
}

} // verus!
