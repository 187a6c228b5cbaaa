//! The ways an operation of the tool can be refused.
use vstd::prelude::*;
use crate::path::LoomPath;

verus! {

/// Every error the library reports, with the values its message names.
#[derive(Debug, Clone, PartialEq, Eq)]
pub enum LoomError {
    /// No configuration source, environment variable or executable path
    /// gave a root directory.
    NoRoot,
    /// An install or uninstall was asked for without any package.
    NoPackages,
    /// `node upgrade` was given no package.
    UpgradeUsage,
    /// The virtualenv does not exist yet; the user should install first.
    VenvNotInitialized { venv: LoomPath },
    /// The virtualenv does not exist (uninstall).
    VenvMissing { venv: LoomPath },
    /// The virtualenv does not exist (rebuild).
    VenvNothingToRebuild { venv: LoomPath },
    /// `python.path` is configured but is not a file.
    PythonPathNotFile { path: String },
    /// `PATH` is not set, so no interpreter can be looked up.
    PathUnset,
    /// No `python` executable was found on `PATH`.
    NoPython,
    /// Creating the virtualenv exited unsuccessfully.
    VenvCreationFailed { code: Option<i32> },
    /// A spawned command exited unsuccessfully.
    CommandFailed { code: Option<i32>, args: Vec<String> },
    /// `pip freeze` exited unsuccessfully; its standard error is kept.
    FreezeFailed { stderr: String },
    /// A shim of that file name already exists.
    ShimExists { target: LoomPath },
    /// The binary to shim is not installed for the runtime.
    BinaryNotFound { name: String, lang: String },
    /// No shim of that name exists in the shims directory.
    ShimNotFound { name: String, dir: LoomPath },
    /// No runtime's bin directory holds the binary a shim was invoked for.
    NoBinaryForShim { name: String },
}

} // verus!
