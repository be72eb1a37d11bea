use vstd::prelude::*;
use crate::errors::{ErrorKind, Failure, Stage};
use crate::ledger::{CleanupMode, DrainState, Ledger};
use crate::naming::{base_name, base_name_ok, has_suffix, spec_base_name, spec_has_suffix,
    spec_overlay_name, derive_overlay_name_from_source};
use crate::protocol::{Action, Event, Step};

verus! {

/// Phases of the device-tree overlay apply workflow.
#[derive(Clone, Copy, Debug, PartialEq, Eq, Structural)]
pub enum OverlayPhase {
    /// Freshly created; waiting for `Start`.
    Init,
    /// The upload of the accompanying bitstream was issued.
    AwaitBitUpload,
    /// The remote bitstream-to-image conversion was issued.
    AwaitBitConvert,
    /// The upload of the accompanying binary image was issued.
    AwaitBinUpload,
    /// The local read of the device-tree source was issued.
    AwaitSourceRead,
    /// The remote device-tree compilation was issued.
    AwaitSourceConvert,
    /// The upload of the compiled overlay bytes was issued.
    AwaitOverlayBytesUpload,
    /// The direct upload of the precompiled overlay file was issued.
    AwaitOverlayFileUpload,
    /// The terminal overlay apply was issued.
    AwaitLoad,
    /// The ledger is being drained, one removal at a time.
    Draining,
    /// Terminal success.
    Finished,
    /// Terminal failure. Staged artifacts are deliberately left uploaded.
    Failed,
}

/// How the overlay artifact itself is resolved once staging of the
/// accompanying image (if any) is through: a `.dts` input is read locally
/// and compiled remotely, anything else is uploaded as a precompiled
/// overlay under its own base name.
pub open spec fn overlay_dispatched(
    dtbo: Seq<char>,
    phase: OverlayPhase,
    overlay_name: Seq<char>,
    r: Step,
) -> bool {
    &&& spec_has_suffix(dtbo, ".dts"@) ==> {
        &&& phase is AwaitSourceRead
        &&& (r matches Step::Do(Action::ReadText { path }) && path@ == dtbo)
    }
    &&& !spec_has_suffix(dtbo, ".dts"@) && base_name_ok(dtbo) ==> {
        &&& phase is AwaitOverlayFileUpload
        &&& overlay_name == spec_base_name(dtbo)
        &&& (r matches Step::Do(Action::UploadFile { name, local_path }) && name@
            == spec_base_name(dtbo) && local_path@ == dtbo)
    }
    &&& !spec_has_suffix(dtbo, ".dts"@) && !base_name_ok(dtbo) ==> {
        &&& phase is Failed
        &&& r == Step::Failed(Failure { kind: ErrorKind::InvalidPath, stage: Stage::Resolve })
    }
}

/// Device-tree overlay apply: optionally stage an accompanying bitstream
/// (uploaded, then converted remotely to a binary image) or binary image
/// (uploaded directly), resolve and stage the overlay artifact, apply it,
/// and only after the apply succeeded drain the ledger best-effort. Any
/// earlier failure leaves already-staged artifacts uploaded.
pub struct OverlayFlow {
    /// The overlay input path: a precompiled `.dtbo`, or a `.dts` source.
    pub dtbo_file: String,
    /// A bitstream to stage alongside, if given. Takes precedence over
    /// `bin_file` when both are given.
    pub bit_file: Option<String>,
    /// A binary image to stage alongside, if given.
    pub bin_file: Option<String>,
    /// The remote name of the staged bitstream or image, once resolved.
    pub image_name: String,
    /// The remote overlay name, once resolved.
    pub overlay_name: String,
    /// Names staged so far, in upload order.
    pub ledger: Ledger,
    /// Progress of the best-effort drain.
    pub drain: DrainState,
    /// The names whose removal has been issued, in issue order.
    pub removals: Ghost<Seq<Seq<char>>>,
    pub phase: OverlayPhase,
}

impl OverlayFlow {
    /// The machine's internal consistency: removals are issued for ledger
    /// entries in order, and none before the drain begins.
    pub open spec fn wf(self) -> bool {
        &&& (self.phase is Draining ==> {
            &&& self.drain.next < self.ledger@.len()
            &&& self.removals@ == self.ledger@.take(self.drain.next + 1)
        })
        &&& (self.phase is Finished ==> self.removals@ == self.ledger@)
        &&& (!(self.phase is Draining) && !(self.phase is Finished) ==> self.removals@
            == Seq::<Seq<char>>::empty())
    }

    /// The events the machine can absorb in its current phase.
    pub open spec fn wants(self, ev: Event) -> bool {
        match self.phase {
            OverlayPhase::Init => ev is Start,
            OverlayPhase::AwaitBitUpload => ev is Uploaded || ev is Transport,
            OverlayPhase::AwaitBitConvert => ev is Converted || ev is Transport,
            OverlayPhase::AwaitBinUpload => ev is Uploaded || ev is Transport,
            OverlayPhase::AwaitSourceRead => ev is TextRead || ev is LocalIoFailed,
            OverlayPhase::AwaitSourceConvert => ev is SourceConverted || ev is Transport,
            OverlayPhase::AwaitOverlayBytesUpload => ev is Uploaded || ev is Transport,
            OverlayPhase::AwaitOverlayFileUpload => ev is Uploaded || ev is Transport,
            OverlayPhase::AwaitLoad => ev is OverlayLoaded || ev is Transport,
            OverlayPhase::Draining => ev is Removed || ev is Transport,
            OverlayPhase::Finished => false,
            OverlayPhase::Failed => false,
        }
    }

    pub fn new(dtbo_file: String, bit_file: Option<String>, bin_file: Option<String>) -> (r:
        OverlayFlow)
        ensures
            r.phase is Init,
            r.wf(),
            r.dtbo_file@ == dtbo_file@,
            r.bit_file == bit_file,
            r.bin_file == bin_file,
            r.ledger@ == Seq::<Seq<char>>::empty(),
    {
        OverlayFlow {
            dtbo_file,
            bit_file,
            bin_file,
            image_name: String::new(),
            overlay_name: String::new(),
            ledger: Ledger::new(),
            drain: DrainState::new(),
            removals: Ghost(Seq::empty()),
            phase: OverlayPhase::Init,
        }
    }

    /// Whether `ev` answers what the machine is waiting for.
    pub fn accepts(&self, ev: &Event) -> (r: bool)
        ensures
            r == self.wants(*ev),
    {
        match self.phase {
            OverlayPhase::Init => matches!(ev, Event::Start),
            OverlayPhase::AwaitBitUpload => matches!(ev, Event::Uploaded { .. } | Event::Transport),
            OverlayPhase::AwaitBitConvert => matches!(ev, Event::Converted | Event::Transport),
            OverlayPhase::AwaitBinUpload => matches!(ev, Event::Uploaded { .. } | Event::Transport),
            OverlayPhase::AwaitSourceRead => matches!(
                ev,
                Event::TextRead { .. } | Event::LocalIoFailed,
            ),
            OverlayPhase::AwaitSourceConvert => matches!(
                ev,
                Event::SourceConverted { .. } | Event::Transport,
            ),
            OverlayPhase::AwaitOverlayBytesUpload => matches!(
                ev,
                Event::Uploaded { .. } | Event::Transport,
            ),
            OverlayPhase::AwaitOverlayFileUpload => matches!(
                ev,
                Event::Uploaded { .. } | Event::Transport,
            ),
            OverlayPhase::AwaitLoad => matches!(ev, Event::OverlayLoaded { .. } | Event::Transport),
            OverlayPhase::Draining => matches!(ev, Event::Removed | Event::Transport),
            OverlayPhase::Finished => false,
            OverlayPhase::Failed => false,
        }
    }

    /// Resolve the overlay artifact and issue its first action.
    fn begin_overlay(&mut self) -> (r: Step)
        ensures
            final(self).dtbo_file@ == old(self).dtbo_file@,
            final(self).ledger@ == old(self).ledger@,
            final(self).drain.next == old(self).drain.next,
            final(self).drain.first_failure == old(self).drain.first_failure,
            final(self).removals@ == old(self).removals@,
            !(final(self).phase is Draining) && !(final(self).phase is Finished),
            overlay_dispatched(
                old(self).dtbo_file@,
                final(self).phase,
                final(self).overlay_name@,
                r,
            ),
    {
        if has_suffix(self.dtbo_file.as_str(), ".dts") {
            self.phase = OverlayPhase::AwaitSourceRead;
            Step::Do(Action::ReadText { path: self.dtbo_file.clone() })
        } else {
            match base_name(self.dtbo_file.as_str()) {
                Ok(name) => {
                    self.overlay_name = name;
                    self.phase = OverlayPhase::AwaitOverlayFileUpload;
                    Step::Do(Action::UploadFile {
                        name: self.overlay_name.clone(),
                        local_path: self.dtbo_file.clone(),
                    })
                },
                Err(_) => {
                    self.phase = OverlayPhase::Failed;
                    Step::Failed(Failure { kind: ErrorKind::InvalidPath, stage: Stage::Resolve })
                },
            }
        }
    }

    /// Issue the next removal of the drain, or finish when every recorded
    /// name has had its removal issued and answered.
    fn continue_drain(&mut self, removed_ok: bool) -> (r: Step)
        requires
            old(self).phase is Draining,
            old(self).wf(),
        ensures
            final(self).wf(),
            final(self).dtbo_file@ == old(self).dtbo_file@,
            final(self).ledger@ == old(self).ledger@,
            ({
                let nx = old(self).drain.next + 1;
                let nf = if removed_ok {
                    old(self).drain.first_failure
                } else if old(self).drain.first_failure is Some {
                    old(self).drain.first_failure
                } else {
                    Some(Failure { kind: ErrorKind::Transport, stage: Stage::Cleanup })
                };
                &&& nx < old(self).ledger@.len() ==> {
                    &&& final(self).phase is Draining
                    &&& final(self).drain.next == nx
                    &&& final(self).drain.first_failure == nf
                    &&& (r matches Step::Do(Action::Remove { name }) && name@ == old(
                        self,
                    ).ledger@[nx])
                }
                &&& nx >= old(self).ledger@.len() ==> {
                    &&& final(self).phase is Finished
                    &&& final(self).removals@ == old(self).ledger@
                    &&& r == Step::Done(nf)
                }
            }),
    {
        let n = self.ledger.len();
        proof {
            assert(self.drain.next < n);
        }
        match self.drain.absorb(removed_ok, CleanupMode::BestEffort) {
            Some(f) => {
                proof {
                    assert(false);
                }
                Step::Failed(f)
            },
            None => {
                if self.drain.next < n {
                    let name = self.ledger.name_at(self.drain.next).clone();
                    self.removals = Ghost(self.removals@.push(name@));
                    proof {
                        assert(self.removals@ =~= self.ledger@.take(self.drain.next + 1));
                    }
                    Step::Do(Action::Remove { name })
                } else {
                    self.phase = OverlayPhase::Finished;
                    proof {
                        assert(self.removals@ =~= self.ledger@);
                    }
                    Step::Done(self.drain.first_failure)
                }
            },
        }
    }

    /// Begin draining the ledger after the terminal apply succeeded.
    fn start_drain(&mut self) -> (r: Step)
        requires
            old(self).removals@ == Seq::<Seq<char>>::empty(),
        ensures
            final(self).wf(),
            final(self).dtbo_file@ == old(self).dtbo_file@,
            final(self).ledger@ == old(self).ledger@,
            old(self).ledger@.len() == 0 ==> {
                &&& final(self).phase is Finished
                &&& final(self).removals@ == old(self).ledger@
                &&& r == Step::Done(None::<Failure>)
            },
            old(self).ledger@.len() > 0 ==> {
                &&& final(self).phase is Draining
                &&& final(self).drain.next == 0
                &&& final(self).drain.first_failure is None
                &&& (r matches Step::Do(Action::Remove { name }) && name@ == old(self).ledger@[0])
            },
    {
        self.drain = DrainState::new();
        let n = self.ledger.len();
        if n == 0 {
            self.phase = OverlayPhase::Finished;
            proof {
                assert(self.removals@ =~= self.ledger@);
            }
            Step::Done(None)
        } else {
            let name = self.ledger.name_at(0).clone();
            self.removals = Ghost(self.removals@.push(name@));
            self.phase = OverlayPhase::Draining;
            proof {
                assert(self.removals@ =~= self.ledger@.take(1));
            }
            Step::Do(Action::Remove { name })
        }
    }

    /// Absorb one event and say what to do next.
    ///
    /// Staging: every upload answered with a `false` success flag is a
    /// `RemoteRejection` and aborts the workflow with nothing recorded.
    /// The ledger records each staged name right after the step that
    /// produced it. The drain runs only after the apply reported success
    /// (its removal trace then covers the ledger exactly, in order); an
    /// apply that reports `false` or any earlier failure halts the machine
    /// with no removal ever issued.
    pub fn step(&mut self, ev: Event) -> (r: Step)
        requires
            old(self).wants(ev),
            old(self).wf(),
        ensures
            final(self).wf(),
            final(self).dtbo_file@ == old(self).dtbo_file@,
            // Stage the accompanying artifact, if any.
            old(self).phase is Init && old(self).bit_file is Some ==> ({
                let bp = (old(self).bit_file->0)@;
                &&& final(self).ledger@ == old(self).ledger@
                &&& !base_name_ok(bp) ==> {
                    &&& final(self).phase is Failed
                    &&& r == Step::Failed(
                        Failure { kind: ErrorKind::InvalidPath, stage: Stage::Resolve },
                    )
                }
                &&& base_name_ok(bp) ==> {
                    &&& final(self).phase is AwaitBitUpload
                    &&& final(self).image_name@ == spec_base_name(bp)
                    &&& (r matches Step::Do(Action::UploadFile { name, local_path }) && name@
                        == spec_base_name(bp) && local_path@ == bp)
                }
            }),
            old(self).phase is Init && old(self).bit_file is None && old(self).bin_file is Some
                ==> ({
                let bp = (old(self).bin_file->0)@;
                &&& final(self).ledger@ == old(self).ledger@
                &&& !base_name_ok(bp) ==> {
                    &&& final(self).phase is Failed
                    &&& r == Step::Failed(
                        Failure { kind: ErrorKind::InvalidPath, stage: Stage::Resolve },
                    )
                }
                &&& base_name_ok(bp) ==> {
                    &&& final(self).phase is AwaitBinUpload
                    &&& final(self).image_name@ == spec_base_name(bp)
                    &&& (r matches Step::Do(Action::UploadFile { name, local_path }) && name@
                        == spec_base_name(bp) && local_path@ == bp)
                }
            }),
            old(self).phase is Init && old(self).bit_file is None && old(self).bin_file is None
                ==> {
                &&& final(self).ledger@ == old(self).ledger@
                &&& overlay_dispatched(
                    old(self).dtbo_file@,
                    final(self).phase,
                    final(self).overlay_name@,
                    r,
                )
            },
            old(self).phase is AwaitBitUpload ==> (ev matches Event::Uploaded { ok } ==> {
                &&& ok ==> {
                    &&& final(self).phase is AwaitBitConvert
                    &&& final(self).image_name@ == old(self).image_name@
                    &&& final(self).ledger@ == old(self).ledger@.push(old(self).image_name@)
                    &&& (r matches Step::Do(Action::ConvertBitstream { source, target, platform })
                        && source@ == old(self).image_name@ && target@ == old(self).image_name@
                        + ".bin"@ && platform@ == "zynqmp"@)
                }
                &&& !ok ==> {
                    &&& final(self).phase is Failed
                    &&& final(self).ledger@ == old(self).ledger@
                    &&& r == Step::Failed(
                        Failure { kind: ErrorKind::RemoteRejection, stage: Stage::Upload },
                    )
                }
            }),
            old(self).phase is AwaitBitUpload && ev is Transport ==> {
                &&& final(self).phase is Failed
                &&& r == Step::Failed(Failure { kind: ErrorKind::Transport, stage: Stage::Upload })
            },
            old(self).phase is AwaitBitConvert && ev is Converted ==> {
                &&& final(self).ledger@ == old(self).ledger@.push(
                    old(self).image_name@ + ".bin"@,
                )
                &&& overlay_dispatched(
                    old(self).dtbo_file@,
                    final(self).phase,
                    final(self).overlay_name@,
                    r,
                )
            },
            old(self).phase is AwaitBitConvert && ev is Transport ==> {
                &&& final(self).phase is Failed
                &&& r == Step::Failed(Failure { kind: ErrorKind::Transport, stage: Stage::Convert })
            },
            old(self).phase is AwaitBinUpload ==> (ev matches Event::Uploaded { ok } ==> {
                &&& ok ==> {
                    &&& final(self).ledger@ == old(self).ledger@.push(old(self).image_name@)
                    &&& overlay_dispatched(
                        old(self).dtbo_file@,
                        final(self).phase,
                        final(self).overlay_name@,
                        r,
                    )
                }
                &&& !ok ==> {
                    &&& final(self).phase is Failed
                    &&& final(self).ledger@ == old(self).ledger@
                    &&& r == Step::Failed(
                        Failure { kind: ErrorKind::RemoteRejection, stage: Stage::Upload },
                    )
                }
            }),
            old(self).phase is AwaitBinUpload && ev is Transport ==> {
                &&& final(self).phase is Failed
                &&& r == Step::Failed(Failure { kind: ErrorKind::Transport, stage: Stage::Upload })
            },
            old(self).phase is AwaitSourceRead ==> (ev matches Event::TextRead { text } ==> {
                &&& final(self).phase is AwaitSourceConvert
                &&& final(self).ledger@ == old(self).ledger@
                &&& (r matches Step::Do(Action::ConvertSource { source_text }) && source_text@
                    == text@)
            }),
            old(self).phase is AwaitSourceRead && ev is LocalIoFailed ==> {
                &&& final(self).phase is Failed
                &&& r == Step::Failed(Failure { kind: ErrorKind::LocalIo, stage: Stage::ReadLocal })
            },
            old(self).phase is AwaitSourceConvert ==> (ev matches Event::SourceConverted {
                ok,
                content,
            } ==> {
                &&& final(self).ledger@ == old(self).ledger@
                &&& !ok ==> {
                    &&& final(self).phase is Failed
                    &&& r == Step::Failed(
                        Failure { kind: ErrorKind::RemoteRejection, stage: Stage::Convert },
                    )
                }
                &&& ok && !base_name_ok(old(self).dtbo_file@) ==> {
                    &&& final(self).phase is Failed
                    &&& r == Step::Failed(
                        Failure { kind: ErrorKind::InvalidPath, stage: Stage::Resolve },
                    )
                }
                &&& ok && base_name_ok(old(self).dtbo_file@) ==> {
                    &&& final(self).phase is AwaitOverlayBytesUpload
                    &&& final(self).overlay_name@ == spec_overlay_name(old(self).dtbo_file@, false)
                    &&& (r matches Step::Do(Action::UploadBytes { name, content: c }) && name@
                        == spec_overlay_name(old(self).dtbo_file@, false) && c@ == content@)
                }
            }),
            old(self).phase is AwaitSourceConvert && ev is Transport ==> {
                &&& final(self).phase is Failed
                &&& r == Step::Failed(Failure { kind: ErrorKind::Transport, stage: Stage::Convert })
            },
            old(self).phase is AwaitOverlayBytesUpload ==> (ev matches Event::Uploaded { ok }
                ==> {
                &&& ok ==> {
                    &&& final(self).phase is AwaitLoad
                    &&& final(self).overlay_name@ == old(self).overlay_name@
                    &&& final(self).ledger@ == old(self).ledger@.push(old(self).overlay_name@)
                    &&& (r matches Step::Do(Action::LoadOverlay { name }) && name@ == old(
                        self,
                    ).overlay_name@)
                }
                &&& !ok ==> {
                    &&& final(self).phase is Failed
                    &&& final(self).ledger@ == old(self).ledger@
                    &&& r == Step::Failed(
                        Failure { kind: ErrorKind::RemoteRejection, stage: Stage::Upload },
                    )
                }
            }),
            old(self).phase is AwaitOverlayBytesUpload && ev is Transport ==> {
                &&& final(self).phase is Failed
                &&& r == Step::Failed(Failure { kind: ErrorKind::Transport, stage: Stage::Upload })
            },
            old(self).phase is AwaitOverlayFileUpload ==> (ev matches Event::Uploaded { ok } ==> {
                &&& ok ==> {
                    &&& final(self).phase is AwaitLoad
                    &&& final(self).overlay_name@ == old(self).overlay_name@
                    &&& final(self).ledger@ == old(self).ledger@.push(old(self).overlay_name@)
                    &&& (r matches Step::Do(Action::LoadOverlay { name }) && name@ == old(
                        self,
                    ).overlay_name@)
                }
                &&& !ok ==> {
                    &&& final(self).phase is Failed
                    &&& r == Step::Failed(
                        Failure { kind: ErrorKind::RemoteRejection, stage: Stage::Upload },
                    )
                }
            }),
            old(self).phase is AwaitOverlayFileUpload && ev is Transport ==> {
                &&& final(self).phase is Failed
                &&& r == Step::Failed(Failure { kind: ErrorKind::Transport, stage: Stage::Upload })
            },
            old(self).phase is AwaitLoad ==> (ev matches Event::OverlayLoaded { ok } ==> {
                &&& final(self).ledger@ == old(self).ledger@
                &&& !ok ==> {
                    &&& final(self).phase is Failed
                    &&& final(self).removals@ == Seq::<Seq<char>>::empty()
                    &&& r == Step::Failed(
                        Failure { kind: ErrorKind::RemoteRejection, stage: Stage::Load },
                    )
                }
                &&& ok && old(self).ledger@.len() == 0 ==> {
                    &&& final(self).phase is Finished
                    &&& final(self).removals@ == old(self).ledger@
                    &&& r == Step::Done(None::<Failure>)
                }
                &&& ok && old(self).ledger@.len() > 0 ==> {
                    &&& final(self).phase is Draining
                    &&& final(self).drain.next == 0
                    &&& final(self).drain.first_failure is None
                    &&& (r matches Step::Do(Action::Remove { name }) && name@ == old(
                        self,
                    ).ledger@[0])
                }
            }),
            old(self).phase is AwaitLoad && ev is Transport ==> {
                &&& final(self).phase is Failed
                &&& final(self).removals@ == Seq::<Seq<char>>::empty()
                &&& r == Step::Failed(Failure { kind: ErrorKind::Transport, stage: Stage::Load })
            },
            old(self).phase is Draining && (ev is Removed || ev is Transport) ==> ({
                let nx = old(self).drain.next + 1;
                let nf = if ev is Removed {
                    old(self).drain.first_failure
                } else if old(self).drain.first_failure is Some {
                    old(self).drain.first_failure
                } else {
                    Some(Failure { kind: ErrorKind::Transport, stage: Stage::Cleanup })
                };
                &&& final(self).ledger@ == old(self).ledger@
                &&& nx < old(self).ledger@.len() ==> {
                    &&& final(self).phase is Draining
                    &&& final(self).drain.next == nx
                    &&& final(self).drain.first_failure == nf
                    &&& (r matches Step::Do(Action::Remove { name }) && name@ == old(
                        self,
                    ).ledger@[nx])
                }
                &&& nx >= old(self).ledger@.len() ==> {
                    &&& final(self).phase is Finished
                    &&& final(self).removals@ == old(self).ledger@
                    &&& r == Step::Done(nf)
                }
            }),
    {
        match self.phase {
            OverlayPhase::Init => {
                if self.bit_file.is_some() {
                    let bit = self.bit_file.as_ref().unwrap().clone();
                    match base_name(bit.as_str()) {
                        Ok(name) => {
                            self.image_name = name;
                            self.phase = OverlayPhase::AwaitBitUpload;
                            Step::Do(Action::UploadFile {
                                name: self.image_name.clone(),
                                local_path: bit,
                            })
                        },
                        Err(_) => {
                            self.phase = OverlayPhase::Failed;
                            Step::Failed(
                                Failure { kind: ErrorKind::InvalidPath, stage: Stage::Resolve },
                            )
                        },
                    }
                } else if self.bin_file.is_some() {
                    let bin = self.bin_file.as_ref().unwrap().clone();
                    match base_name(bin.as_str()) {
                        Ok(name) => {
                            self.image_name = name;
                            self.phase = OverlayPhase::AwaitBinUpload;
                            Step::Do(Action::UploadFile {
                                name: self.image_name.clone(),
                                local_path: bin,
                            })
                        },
                        Err(_) => {
                            self.phase = OverlayPhase::Failed;
                            Step::Failed(
                                Failure { kind: ErrorKind::InvalidPath, stage: Stage::Resolve },
                            )
                        },
                    }
                } else {
                    self.begin_overlay()
                }
            },
            OverlayPhase::AwaitBitUpload => {
                match ev {
                    Event::Uploaded { ok } => {
                        if ok {
                            self.ledger.record(self.image_name.clone());
                            self.phase = OverlayPhase::AwaitBitConvert;
                            let mut target = self.image_name.clone();
                            target.append(".bin");
                            Step::Do(Action::ConvertBitstream {
                                source: self.image_name.clone(),
                                target,
                                platform: String::from_str("zynqmp"),
                            })
                        } else {
                            self.phase = OverlayPhase::Failed;
                            Step::Failed(
                                Failure { kind: ErrorKind::RemoteRejection, stage: Stage::Upload },
                            )
                        }
                    },
                    _ => {
                        self.phase = OverlayPhase::Failed;
                        Step::Failed(Failure { kind: ErrorKind::Transport, stage: Stage::Upload })
                    },
                }
            },
            OverlayPhase::AwaitBitConvert => {
                match ev {
                    Event::Converted => {
                        let mut converted = self.image_name.clone();
                        converted.append(".bin");
                        self.ledger.record(converted);
                        self.begin_overlay()
                    },
                    _ => {
                        self.phase = OverlayPhase::Failed;
                        Step::Failed(Failure { kind: ErrorKind::Transport, stage: Stage::Convert })
                    },
                }
            },
            OverlayPhase::AwaitBinUpload => {
                match ev {
                    Event::Uploaded { ok } => {
                        if ok {
                            self.ledger.record(self.image_name.clone());
                            self.begin_overlay()
                        } else {
                            self.phase = OverlayPhase::Failed;
                            Step::Failed(
                                Failure { kind: ErrorKind::RemoteRejection, stage: Stage::Upload },
                            )
                        }
                    },
                    _ => {
                        self.phase = OverlayPhase::Failed;
                        Step::Failed(Failure { kind: ErrorKind::Transport, stage: Stage::Upload })
                    },
                }
            },
            OverlayPhase::AwaitSourceRead => {
                match ev {
                    Event::TextRead { text } => {
                        self.phase = OverlayPhase::AwaitSourceConvert;
                        Step::Do(Action::ConvertSource { source_text: text })
                    },
                    _ => {
                        self.phase = OverlayPhase::Failed;
                        Step::Failed(Failure { kind: ErrorKind::LocalIo, stage: Stage::ReadLocal })
                    },
                }
            },
            OverlayPhase::AwaitSourceConvert => {
                match ev {
                    Event::SourceConverted { ok, content } => {
                        if !ok {
                            self.phase = OverlayPhase::Failed;
                            Step::Failed(
                                Failure { kind: ErrorKind::RemoteRejection, stage: Stage::Convert },
                            )
                        } else {
                            match derive_overlay_name_from_source(self.dtbo_file.as_str(), false) {
                                Ok(name) => {
                                    self.overlay_name = name;
                                    self.phase = OverlayPhase::AwaitOverlayBytesUpload;
                                    Step::Do(Action::UploadBytes {
                                        name: self.overlay_name.clone(),
                                        content,
                                    })
                                },
                                Err(_) => {
                                    self.phase = OverlayPhase::Failed;
                                    Step::Failed(
                                        Failure {
                                            kind: ErrorKind::InvalidPath,
                                            stage: Stage::Resolve,
                                        },
                                    )
                                },
                            }
                        }
                    },
                    _ => {
                        self.phase = OverlayPhase::Failed;
                        Step::Failed(Failure { kind: ErrorKind::Transport, stage: Stage::Convert })
                    },
                }
            },
            OverlayPhase::AwaitOverlayBytesUpload => {
                match ev {
                    Event::Uploaded { ok } => {
                        if ok {
                            self.ledger.record(self.overlay_name.clone());
                            self.phase = OverlayPhase::AwaitLoad;
                            Step::Do(Action::LoadOverlay { name: self.overlay_name.clone() })
                        } else {
                            self.phase = OverlayPhase::Failed;
                            Step::Failed(
                                Failure { kind: ErrorKind::RemoteRejection, stage: Stage::Upload },
                            )
                        }
                    },
                    _ => {
                        self.phase = OverlayPhase::Failed;
                        Step::Failed(Failure { kind: ErrorKind::Transport, stage: Stage::Upload })
                    },
                }
            },
            OverlayPhase::AwaitOverlayFileUpload => {
                match ev {
                    Event::Uploaded { ok } => {
                        if ok {
                            self.ledger.record(self.overlay_name.clone());
                            self.phase = OverlayPhase::AwaitLoad;
                            Step::Do(Action::LoadOverlay { name: self.overlay_name.clone() })
                        } else {
                            self.phase = OverlayPhase::Failed;
                            Step::Failed(
                                Failure { kind: ErrorKind::RemoteRejection, stage: Stage::Upload },
                            )
                        }
                    },
                    _ => {
                        self.phase = OverlayPhase::Failed;
                        Step::Failed(Failure { kind: ErrorKind::Transport, stage: Stage::Upload })
                    },
                }
            },
            OverlayPhase::AwaitLoad => {
                match ev {
                    Event::OverlayLoaded { ok } => {
                        if ok {
                            self.start_drain()
                        } else {
                            self.phase = OverlayPhase::Failed;
                            Step::Failed(
                                Failure { kind: ErrorKind::RemoteRejection, stage: Stage::Load },
                            )
                        }
                    },
                    _ => {
                        self.phase = OverlayPhase::Failed;
                        Step::Failed(Failure { kind: ErrorKind::Transport, stage: Stage::Load })
                    },
                }
            },
            OverlayPhase::Draining => {
                match ev {
                    Event::Removed => self.continue_drain(true),
                    _ => self.continue_drain(false),
                }
            },
            OverlayPhase::Finished | OverlayPhase::Failed => {
                proof {
                    assert(false);
                }
                Step::Failed(Failure { kind: ErrorKind::Transport, stage: Stage::Load })
            },
        }
    }
}

} // verus!
