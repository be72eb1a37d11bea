use vstd::prelude::*;
use crate::errors::{ErrorKind, Failure, Stage};
use crate::protocol::{Action, Event, Step};

verus! {

/// Phases of the standalone device-tree conversion workflow.
#[derive(Clone, Copy, Debug, PartialEq, Eq, Structural)]
pub enum ConvertPhase {
    /// Freshly created; waiting for `Start`.
    Init,
    /// The local read of the source was issued.
    AwaitRead,
    /// The remote compilation was issued.
    AwaitConvert,
    /// The local write of the compiled bytes was issued.
    AwaitWrite,
    /// Terminal success.
    Finished,
    /// Terminal failure.
    Failed,
}

/// Standalone DTS-to-DTBO conversion: read the local source text, have the
/// remote agent compile it, and write the returned bytes verbatim to the
/// target path. Nothing is staged remotely.
pub struct ConvertFlow {
    /// The local device-tree source path.
    pub dts_file: String,
    /// The local path the compiled overlay is written to.
    pub dtbo_file: String,
    pub phase: ConvertPhase,
}

impl ConvertFlow {
    /// The events the machine can absorb in its current phase.
    pub open spec fn wants(self, ev: Event) -> bool {
        match self.phase {
            ConvertPhase::Init => ev is Start,
            ConvertPhase::AwaitRead => ev is TextRead || ev is LocalIoFailed,
            ConvertPhase::AwaitConvert => ev is SourceConverted || ev is Transport,
            ConvertPhase::AwaitWrite => ev is Written || ev is LocalIoFailed,
            ConvertPhase::Finished => false,
            ConvertPhase::Failed => false,
        }
    }

    pub fn new(dts_file: String, dtbo_file: String) -> (r: ConvertFlow)
        ensures
            r.phase is Init,
            r.dts_file@ == dts_file@,
            r.dtbo_file@ == dtbo_file@,
    {
        ConvertFlow { dts_file, dtbo_file, phase: ConvertPhase::Init }
    }

    /// Whether `ev` answers what the machine is waiting for.
    pub fn accepts(&self, ev: &Event) -> (r: bool)
        ensures
            r == self.wants(*ev),
    {
        match self.phase {
            ConvertPhase::Init => matches!(ev, Event::Start),
            ConvertPhase::AwaitRead => matches!(ev, Event::TextRead { .. } | Event::LocalIoFailed),
            ConvertPhase::AwaitConvert => matches!(
                ev,
                Event::SourceConverted { .. } | Event::Transport,
            ),
            ConvertPhase::AwaitWrite => matches!(ev, Event::Written | Event::LocalIoFailed),
            ConvertPhase::Finished => false,
            ConvertPhase::Failed => false,
        }
    }

    /// Absorb one event and say what to do next. The bytes handed to the
    /// write are exactly the bytes the remote compilation returned: no
    /// transformation stands between them.
    pub fn step(&mut self, ev: Event) -> (r: Step)
        requires
            old(self).wants(ev),
        ensures
            final(self).dts_file@ == old(self).dts_file@,
            final(self).dtbo_file@ == old(self).dtbo_file@,
            old(self).phase is Init ==> {
                &&& final(self).phase is AwaitRead
                &&& (r matches Step::Do(Action::ReadText { path }) && path@ == old(
                    self,
                ).dts_file@)
            },
            old(self).phase is AwaitRead ==> (ev matches Event::TextRead { text } ==> {
                &&& final(self).phase is AwaitConvert
                &&& (r matches Step::Do(Action::ConvertSource { source_text }) && source_text@
                    == text@)
            }),
            old(self).phase is AwaitRead && ev is LocalIoFailed ==> {
                &&& final(self).phase is Failed
                &&& r == Step::Failed(Failure { kind: ErrorKind::LocalIo, stage: Stage::ReadLocal })
            },
            old(self).phase is AwaitConvert ==> (ev matches Event::SourceConverted {
                ok,
                content,
            } ==> {
                &&& ok ==> {
                    &&& final(self).phase is AwaitWrite
                    &&& (r matches Step::Do(Action::WriteBytes { path, content: c }) && path@
                        == old(self).dtbo_file@ && c@ == content@)
                }
                &&& !ok ==> {
                    &&& final(self).phase is Failed
                    &&& r == Step::Failed(
                        Failure { kind: ErrorKind::RemoteRejection, stage: Stage::Convert },
                    )
                }
            }),
            old(self).phase is AwaitConvert && ev is Transport ==> {
                &&& final(self).phase is Failed
                &&& r == Step::Failed(Failure { kind: ErrorKind::Transport, stage: Stage::Convert })
            },
            old(self).phase is AwaitWrite && ev is Written ==> {
                &&& final(self).phase is Finished
                &&& r == Step::Done(None::<Failure>)
            },
            old(self).phase is AwaitWrite && ev is LocalIoFailed ==> {
                &&& final(self).phase is Failed
                &&& r == Step::Failed(
                    Failure { kind: ErrorKind::LocalIo, stage: Stage::WriteLocal },
                )
            },
    {
        match self.phase {
            ConvertPhase::Init => {
                self.phase = ConvertPhase::AwaitRead;
                Step::Do(Action::ReadText { path: self.dts_file.clone() })
            },
            ConvertPhase::AwaitRead => {
                match ev {
                    Event::TextRead { text } => {
                        self.phase = ConvertPhase::AwaitConvert;
                        Step::Do(Action::ConvertSource { source_text: text })
                    },
                    _ => {
                        self.phase = ConvertPhase::Failed;
                        Step::Failed(Failure { kind: ErrorKind::LocalIo, stage: Stage::ReadLocal })
                    },
                }
            },
            ConvertPhase::AwaitConvert => {
                match ev {
                    Event::SourceConverted { ok, content } => {
                        if ok {
                            self.phase = ConvertPhase::AwaitWrite;
                            Step::Do(Action::WriteBytes {
                                path: self.dtbo_file.clone(),
                                content,
                            })
                        } else {
                            self.phase = ConvertPhase::Failed;
                            Step::Failed(
                                Failure { kind: ErrorKind::RemoteRejection, stage: Stage::Convert },
                            )
                        }
                    },
                    _ => {
                        self.phase = ConvertPhase::Failed;
                        Step::Failed(Failure { kind: ErrorKind::Transport, stage: Stage::Convert })
                    },
                }
            },
            ConvertPhase::AwaitWrite => {
                match ev {
                    Event::Written => {
                        self.phase = ConvertPhase::Finished;
                        Step::Done(None)
                    },
                    _ => {
                        self.phase = ConvertPhase::Failed;
                        Step::Failed(
                            Failure { kind: ErrorKind::LocalIo, stage: Stage::WriteLocal },
                        )
                    },
                }
            },
            ConvertPhase::Finished | ConvertPhase::Failed => {
                proof {
                    assert(false);
                }
                Step::Failed(Failure { kind: ErrorKind::Transport, stage: Stage::Convert })
            },
        }
    }
}

} // verus!
