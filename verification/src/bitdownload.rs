use vstd::prelude::*;
use crate::errors::{ErrorKind, Failure, Stage};
use crate::naming::{base_name, base_name_ok, spec_base_name};
use crate::protocol::{Action, Event, Step};

verus! {

/// Phases of the raw bitstream download workflow.
#[derive(Clone, Copy, Debug, PartialEq, Eq, Structural)]
pub enum BitdownloadPhase {
    /// Freshly created; waiting for `Start`.
    Init,
    /// The upload of the bitstream was issued.
    AwaitUpload,
    /// The remote bitstream load was issued.
    AwaitLoad,
    /// The removal of the uploaded bitstream was issued.
    AwaitRemove,
    /// Terminal success.
    Finished,
    /// Terminal failure.
    Failed,
}

/// Raw bitstream download: resolve the local file's base name as its remote
/// name, upload the file under it, load the bitstream, and remove the upload
/// after the load succeeded. If the load fails the artifact is deliberately
/// left uploaded.
pub struct BitdownloadFlow {
    /// The local bitstream path the workflow was invoked with.
    pub bitstream_file: String,
    /// The derived remote name, once resolved.
    pub remote_name: String,
    pub phase: BitdownloadPhase,
}

impl BitdownloadFlow {
    /// The events the machine can absorb in its current phase.
    pub open spec fn wants(self, ev: Event) -> bool {
        match self.phase {
            BitdownloadPhase::Init => ev is Start,
            BitdownloadPhase::AwaitUpload => ev is Uploaded || ev is Transport,
            BitdownloadPhase::AwaitLoad => ev is BitstreamLoaded || ev is Transport,
            BitdownloadPhase::AwaitRemove => ev is Removed || ev is Transport,
            BitdownloadPhase::Finished => false,
            BitdownloadPhase::Failed => false,
        }
    }

    pub fn new(bitstream_file: String) -> (r: BitdownloadFlow)
        ensures
            r.phase is Init,
            r.bitstream_file@ == bitstream_file@,
    {
        BitdownloadFlow {
            bitstream_file,
            remote_name: String::new(),
            phase: BitdownloadPhase::Init,
        }
    }

    /// Whether `ev` answers what the machine is waiting for.
    pub fn accepts(&self, ev: &Event) -> (r: bool)
        ensures
            r == self.wants(*ev),
    {
        match self.phase {
            BitdownloadPhase::Init => matches!(ev, Event::Start),
            BitdownloadPhase::AwaitUpload => matches!(ev, Event::Uploaded { .. } | Event::Transport),
            BitdownloadPhase::AwaitLoad => matches!(ev, Event::BitstreamLoaded | Event::Transport),
            BitdownloadPhase::AwaitRemove => matches!(ev, Event::Removed | Event::Transport),
            BitdownloadPhase::Finished => false,
            BitdownloadPhase::Failed => false,
        }
    }

    /// Absorb one event and say what to do next. An upload answered with a
    /// `false` success flag is a `RemoteRejection` and aborts the workflow.
    /// A load failure leaves the uploaded artifact in place — the defined
    /// failure policy — while a failure of the one removal after a
    /// successful load fails the command.
    pub fn step(&mut self, ev: Event) -> (r: Step)
        requires
            old(self).wants(ev),
        ensures
            final(self).bitstream_file@ == old(self).bitstream_file@,
            old(self).phase is Init && !base_name_ok(old(self).bitstream_file@) ==> {
                &&& final(self).phase is Failed
                &&& r == Step::Failed(Failure { kind: ErrorKind::InvalidPath, stage: Stage::Resolve })
            },
            old(self).phase is Init && base_name_ok(old(self).bitstream_file@) ==> {
                &&& final(self).phase is AwaitUpload
                &&& final(self).remote_name@ == spec_base_name(old(self).bitstream_file@)
                &&& (r matches Step::Do(Action::UploadFile { name, local_path })
                    && name@ == spec_base_name(old(self).bitstream_file@)
                    && local_path@ == old(self).bitstream_file@)
            },
            old(self).phase is AwaitUpload ==> (ev matches Event::Uploaded { ok } ==> {
                &&& ok ==> {
                    &&& final(self).phase is AwaitLoad
                    &&& final(self).remote_name@ == old(self).remote_name@
                    &&& (r matches Step::Do(Action::LoadBitstream { name })
                        && name@ == old(self).remote_name@)
                }
                &&& !ok ==> {
                    &&& final(self).phase is Failed
                    &&& r == Step::Failed(
                        Failure { kind: ErrorKind::RemoteRejection, stage: Stage::Upload },
                    )
                }
            }),
            old(self).phase is AwaitUpload && ev is Transport ==> {
                &&& final(self).phase is Failed
                &&& r == Step::Failed(Failure { kind: ErrorKind::Transport, stage: Stage::Upload })
            },
            old(self).phase is AwaitLoad && ev is BitstreamLoaded ==> {
                &&& final(self).phase is AwaitRemove
                &&& final(self).remote_name@ == old(self).remote_name@
                &&& (r matches Step::Do(Action::Remove { name })
                    && name@ == old(self).remote_name@)
            },
            old(self).phase is AwaitLoad && ev is Transport ==> {
                &&& final(self).phase is Failed
                &&& r == Step::Failed(Failure { kind: ErrorKind::Transport, stage: Stage::Load })
            },
            old(self).phase is AwaitRemove && ev is Removed ==> {
                &&& final(self).phase is Finished
                &&& r == Step::Done(None::<Failure>)
            },
            old(self).phase is AwaitRemove && ev is Transport ==> {
                &&& final(self).phase is Failed
                &&& r == Step::Failed(Failure { kind: ErrorKind::Transport, stage: Stage::Cleanup })
            },
    {
        match self.phase {
            BitdownloadPhase::Init => {
                match base_name(self.bitstream_file.as_str()) {
                    Ok(name) => {
                        self.remote_name = name;
                        self.phase = BitdownloadPhase::AwaitUpload;
                        Step::Do(Action::UploadFile {
                            name: self.remote_name.clone(),
                            local_path: self.bitstream_file.clone(),
                        })
                    },
                    Err(_) => {
                        self.phase = BitdownloadPhase::Failed;
                        Step::Failed(Failure { kind: ErrorKind::InvalidPath, stage: Stage::Resolve })
                    },
                }
            },
            BitdownloadPhase::AwaitUpload => {
                match ev {
                    Event::Uploaded { ok } => {
                        if ok {
                            self.phase = BitdownloadPhase::AwaitLoad;
                            Step::Do(Action::LoadBitstream { name: self.remote_name.clone() })
                        } else {
                            self.phase = BitdownloadPhase::Failed;
                            Step::Failed(
                                Failure { kind: ErrorKind::RemoteRejection, stage: Stage::Upload },
                            )
                        }
                    },
                    _ => {
                        self.phase = BitdownloadPhase::Failed;
                        Step::Failed(Failure { kind: ErrorKind::Transport, stage: Stage::Upload })
                    },
                }
            },
            BitdownloadPhase::AwaitLoad => {
                match ev {
                    Event::BitstreamLoaded => {
                        self.phase = BitdownloadPhase::AwaitRemove;
                        Step::Do(Action::Remove { name: self.remote_name.clone() })
                    },
                    _ => {
                        self.phase = BitdownloadPhase::Failed;
                        Step::Failed(Failure { kind: ErrorKind::Transport, stage: Stage::Load })
                    },
                }
            },
            BitdownloadPhase::AwaitRemove => {
                match ev {
                    Event::Removed => {
                        self.phase = BitdownloadPhase::Finished;
                        Step::Done(None)
                    },
                    _ => {
                        self.phase = BitdownloadPhase::Failed;
                        Step::Failed(Failure { kind: ErrorKind::Transport, stage: Stage::Cleanup })
                    },
                }
            },
            BitdownloadPhase::Finished | BitdownloadPhase::Failed => {
                proof {
                    assert(false);
                }
                Step::Failed(Failure { kind: ErrorKind::Transport, stage: Stage::Load })
            },
        }
    }
}

} // verus!
