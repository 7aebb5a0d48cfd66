use vstd::prelude::*;

verus! {

/// The failures a pipeline run can surface, following the error policy:
/// failures before a container exists are fatal and reported directly;
/// failures after that still run teardown; a failed teardown is only logged.
#[derive(Clone, Copy, Debug, PartialEq, Eq, Structural)]
pub enum ExecError {
    /// The container daemon could not be reached at all.
    DaemonUnavailable,
    /// The daemon rejected the container creation request (bad image, limits).
    ContainerCreateFailed,
    /// Uploading an archive into the container failed.
    UploadFailed,
    /// Starting an exec session inside the container failed.
    ExecFailed,
    /// A requested output path was absent from the container filesystem.
    FileNotFound,
    /// Removing the container failed; swallowed by the pipeline, never surfaced.
    TeardownFailed,
}

impl ExecError {
    /// A short human-readable description, for the caller that renders a reply.
    pub fn message(&self) -> (r: &'static str)
        ensures
            r@ == match self {
                ExecError::DaemonUnavailable => "container daemon unavailable"@,
                ExecError::ContainerCreateFailed => "container creation failed"@,
                ExecError::UploadFailed => "upload into container failed"@,
                ExecError::ExecFailed => "starting command in container failed"@,
                ExecError::FileNotFound => "file not found"@,
                ExecError::TeardownFailed => "container teardown failed"@,
            },
    {
        match self {
            ExecError::DaemonUnavailable => "container daemon unavailable",
            ExecError::ContainerCreateFailed => "container creation failed",
            ExecError::UploadFailed => "upload into container failed",
            ExecError::ExecFailed => "starting command in container failed",
            ExecError::FileNotFound => "file not found",
            ExecError::TeardownFailed => "container teardown failed",
        }
    }
}

/// The failures of the archive codec.
#[derive(Clone, Copy, Debug, PartialEq, Eq, Structural)]
pub enum CodecError {
    /// The archive had no entry, or could not be parsed as a gzip-compressed tar.
    NotFound,
    /// An entry path was rejected; archive paths are simple relative paths.
    InvalidPath,
}

} // verus!
