use vstd::prelude::*;

verus! {

/// The error taxonomy of the orchestrator.
#[derive(Clone, Copy, Debug, PartialEq, Eq, Structural)]
pub enum ErrorKind {
    /// A supplied path has no extractable file-name component.
    InvalidPath,
    /// A remote call could not complete.
    Transport,
    /// A remote call completed but reported logical failure via its boolean flag.
    RemoteRejection,
    /// A local filesystem read or write failed.
    LocalIo,
}

/// The step of a workflow in which an error arose, so a caller can tell
/// an upload failure from a conversion, load or cleanup failure.
#[derive(Clone, Copy, Debug, PartialEq, Eq, Structural)]
pub enum Stage {
    /// Deriving a remote name from a local path.
    Resolve,
    /// Reading a local input file.
    ReadLocal,
    /// Uploading an artifact to the remote agent.
    Upload,
    /// A remote format conversion.
    Convert,
    /// The terminal load or apply call.
    Load,
    /// The terminal register call.
    Register,
    /// The unregister call.
    Unregister,
    /// The unload call.
    Unload,
    /// Removing staged artifacts after terminal success.
    Cleanup,
    /// Writing a local output file.
    WriteLocal,
}

/// An error together with the step it arose in.
#[derive(Clone, Copy, Debug, PartialEq, Eq, Structural)]
pub struct Failure {
    pub kind: ErrorKind,
    pub stage: Stage,
}

} // verus!
