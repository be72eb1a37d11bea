use vstd::prelude::*;
use crate::errors::Failure;

verus! {

/// A remote-agent or local-filesystem operation a workflow asks its caller
/// to perform. The caller performs it and feeds the outcome back as an
/// `Event`.
#[derive(Debug, Clone, PartialEq)]
pub enum Action {
    /// Upload the file at `local_path` under the remote name `name`.
    UploadFile { name: String, local_path: String },
    /// Upload `content` under the remote name `name`.
    UploadBytes { name: String, content: Vec<u8> },
    /// Remove the remote artifact `name`.
    Remove { name: String },
    /// Convert remote bitstream `source` into binary image `target` for
    /// `platform`.
    ConvertBitstream { source: String, target: String, platform: String },
    /// Compile device-tree source text into overlay bytes.
    ConvertSource { source_text: String },
    /// Load the remote bitstream `name` into the fabric.
    LoadBitstream { name: String },
    /// Apply the remote overlay `name`.
    LoadOverlay { name: String },
    /// Register an accelerator package from staged artifacts.
    Register {
        accel: String,
        image: String,
        overlay: String,
        metadata: Option<String>,
        cleanup: bool,
    },
    /// Unregister the accelerator package `accel`.
    Unregister { accel: String },
    /// Load the accelerator package `accel` into a slot.
    LoadAccel { accel: String },
    /// Unload whatever is loaded in `slot`.
    UnloadAccel { slot: i32 },
    /// Read the local file at `path` as text.
    ReadText { path: String },
    /// Write `content` to the local `path`.
    WriteBytes { path: String, content: Vec<u8> },
}

/// The outcome of the last `Action`, fed back into the workflow.
#[derive(Debug, Clone, PartialEq)]
pub enum Event {
    /// Starts a freshly created workflow; answers no action.
    Start,
    /// The last remote call could not complete.
    Transport,
    /// The last local read or write failed.
    LocalIoFailed,
    /// An upload completed; `ok` is the agent's success flag.
    Uploaded { ok: bool },
    /// A removal was acknowledged.
    Removed,
    /// A bitstream-to-image conversion was acknowledged.
    Converted,
    /// A device-tree compilation completed; on success `content` holds the
    /// overlay bytes.
    SourceConverted { ok: bool, content: Vec<u8> },
    /// A bitstream load was acknowledged.
    BitstreamLoaded,
    /// An overlay apply completed; `ok` is the agent's success flag.
    OverlayLoaded { ok: bool },
    /// A package registration was acknowledged.
    Registered,
    /// A package unregistration was acknowledged.
    Unregistered,
    /// An accelerator load completed; on success `slot` holds the slot the
    /// package was loaded to.
    AccelLoaded { ok: bool, slot: i32 },
    /// An accelerator unload completed; `ok` is the agent's success flag.
    AccelUnloaded { ok: bool },
    /// A local text read succeeded.
    TextRead { text: String },
    /// A local write succeeded.
    Written,
}

/// What a workflow tells its caller after absorbing an event.
#[derive(Debug, Clone, PartialEq)]
pub enum Step {
    /// Perform this operation and feed its outcome back.
    Do(Action),
    /// The workflow succeeded. A cleanup failure met during a best-effort
    /// drain is reported here without failing the workflow's primary result.
    Done(Option<Failure>),
    /// The workflow failed; no further event is expected.
    Failed(Failure),
}

} // verus!
