//! What can go wrong while the local resolver is located, started or asked.
//! The orchestrator treats each of these as "no rows from this stage"; the
//! variants keep them apart for diagnostics.

use crate::text::{trim, trimmed};
use vstd::prelude::*;

verus! {

/// A failure of the local resolver.
#[derive(Debug, Clone, PartialEq, Eq)]
pub enum LocalError {
    /// The configured resolver path names no file.
    ExplicitPathNotAFile,
    /// The daemon was asked for and the configured resolver is a script.
    DaemonNeedsBinary,
    /// No script and no executable was found on the search path.
    RunnerNotFound,
    /// No executable was found on the search path for the daemon.
    DaemonBinaryNotFound,
    /// The resolver process could not be started.
    SpawnFailed { detail: String },
    /// The one-shot process ended with a failure status.
    ProcessFailed { status: String, stderr: String },
    /// The one-shot process succeeded and printed nothing.
    EmptyOutput { stderr: String },
    /// The resolver printed or answered something that is no list of rows.
    MalformedOutput { detail: String },
    /// The daemon did not answer its health probe in time.
    DaemonStartupTimeout,
    /// The request to the daemon failed.
    Transport { detail: String },
}

impl LocalError {
    /// The text of the error.
    pub open spec fn text(self) -> Seq<char> {
        match self {
            LocalError::ExplicitPathNotAFile =>
                "SPATIA_GEOCODER_BIN is set but does not point to a file"@,
            LocalError::DaemonNeedsBinary =>
                "Daemon mode requires a packaged geocoder binary, not a Python source file"@,
            LocalError::RunnerNotFound =>
                "Unable to locate geocoder runner. Set SPATIA_GEOCODER_BIN or run package_sidecar.sh"@,
            LocalError::DaemonBinaryNotFound =>
                "Daemon mode requires a packaged geocoder binary. Set SPATIA_GEOCODER_BIN to a built executable."@,
            LocalError::SpawnFailed { detail } => "geocoder process could not be started: "@
                + detail@,
            LocalError::ProcessFailed { status, stderr } =>
                "geocoder one-shot process failed with status "@ + status@ + ": "@ + trimmed(
                    stderr@,
                ),
            LocalError::EmptyOutput { stderr } =>
                "geocoder one-shot process returned empty output. Rebuild sidecar binary or use SPATIA_GEOCODER_BIN/SPATIA_GEOCODER_PYTHON. stderr: "@
                    + trimmed(stderr@),
            LocalError::MalformedOutput { detail } => "geocoder output is malformed: "@ + detail@,
            LocalError::DaemonStartupTimeout => "Timed out waiting for geocoder daemon readiness"@,
            LocalError::Transport { detail } => "geocoder daemon request failed: "@ + detail@,
        }
    }

    /// The text of the error.
    pub fn message(&self) -> (r: String)
        ensures
            r@ == self.text(),
    {
        match self {
            LocalError::ExplicitPathNotAFile =>
                "SPATIA_GEOCODER_BIN is set but does not point to a file".to_owned(),
            LocalError::DaemonNeedsBinary =>
                "Daemon mode requires a packaged geocoder binary, not a Python source file".to_owned(),
            LocalError::RunnerNotFound =>
                "Unable to locate geocoder runner. Set SPATIA_GEOCODER_BIN or run package_sidecar.sh".to_owned(),
            LocalError::DaemonBinaryNotFound =>
                "Daemon mode requires a packaged geocoder binary. Set SPATIA_GEOCODER_BIN to a built executable.".to_owned(),
            LocalError::SpawnFailed { detail } => {
                let mut r = "geocoder process could not be started: ".to_owned();
                r.append(detail.as_str());
                r
            },
            LocalError::ProcessFailed { status, stderr } => {
                let mut r = "geocoder one-shot process failed with status ".to_owned();
                r.append(status.as_str());
                r.append(": ");
                r.append(trim(stderr.as_str()).as_str());
                r
            },
            LocalError::EmptyOutput { stderr } => {
                let mut r =
                    "geocoder one-shot process returned empty output. Rebuild sidecar binary or use SPATIA_GEOCODER_BIN/SPATIA_GEOCODER_PYTHON. stderr: ".to_owned();
                r.append(trim(stderr.as_str()).as_str());
                r
            },
            LocalError::MalformedOutput { detail } => {
                let mut r = "geocoder output is malformed: ".to_owned();
                r.append(detail.as_str());
                r
            },
            LocalError::DaemonStartupTimeout =>
                "Timed out waiting for geocoder daemon readiness".to_owned(),
            LocalError::Transport { detail } => {
                let mut r = "geocoder daemon request failed: ".to_owned();
                r.append(detail.as_str());
                r
            },
        }
    }

    /// A copy of the error.
    pub fn duplicate(&self) -> (r: LocalError)
        ensures
            r == *self,
    {
        match self {
            LocalError::ExplicitPathNotAFile => LocalError::ExplicitPathNotAFile,
            LocalError::DaemonNeedsBinary => LocalError::DaemonNeedsBinary,
            LocalError::RunnerNotFound => LocalError::RunnerNotFound,
            LocalError::DaemonBinaryNotFound => LocalError::DaemonBinaryNotFound,
            LocalError::SpawnFailed { detail } => LocalError::SpawnFailed { detail: detail.clone() },
            LocalError::ProcessFailed { status, stderr } => LocalError::ProcessFailed {
                status: status.clone(),
                stderr: stderr.clone(),
            },
            LocalError::EmptyOutput { stderr } => LocalError::EmptyOutput { stderr: stderr.clone() },
            LocalError::MalformedOutput { detail } => LocalError::MalformedOutput {
                detail: detail.clone(),
            },
            LocalError::DaemonStartupTimeout => LocalError::DaemonStartupTimeout,
            LocalError::Transport { detail } => LocalError::Transport { detail: detail.clone() },
        }
    }
}

} // verus!
