use vstd::prelude::*;
use crate::errors::{ErrorKind, Failure, Stage};
use crate::ledger::{CleanupMode, DrainState, Ledger};
use crate::naming::{base_name, base_name_ok, has_suffix, spec_base_name, spec_has_suffix,
    spec_overlay_name, derive_overlay_name_from_source};
use crate::protocol::{Action, Event, Step};

verus! {

/// Phases of the accelerator package registration workflow.
#[derive(Clone, Copy, Debug, PartialEq, Eq, Structural)]
pub enum RegisterPhase {
    /// Freshly created; waiting for `Start`.
    Init,
    /// The upload of the `.bit` bitstream was issued.
    AwaitBitUpload,
    /// The remote bitstream-to-image conversion was issued.
    AwaitBitConvert,
    /// The direct upload of the binary image was issued.
    AwaitBinUpload,
    /// The local read of the device-tree source was issued.
    AwaitSourceRead,
    /// The remote device-tree compilation was issued.
    AwaitSourceConvert,
    /// The upload of the compiled overlay bytes was issued.
    AwaitOverlayBytesUpload,
    /// The direct upload of the precompiled overlay file was issued.
    AwaitOverlayFileUpload,
    /// The upload of the metadata file was issued.
    AwaitJsonUpload,
    /// The terminal register call was issued.
    AwaitRegister,
    /// Staged artifacts are being removed, one at a time, fail-fast.
    Draining,
    /// Terminal success.
    Finished,
    /// Terminal failure.
    Failed,
}

/// How the overlay input is resolved for registration: a `.dts` input is
/// read locally and compiled remotely (its derived name uses the stem),
/// anything else is uploaded as a precompiled overlay under its base name.
pub open spec fn register_overlay_dispatched(
    dtbo: Seq<char>,
    phase: RegisterPhase,
    overlay_name: Seq<char>,
    r: Step,
) -> bool {
    &&& spec_has_suffix(dtbo, ".dts"@) ==> {
        &&& phase is AwaitSourceRead
        &&& (r matches Step::Do(Action::ReadText { path }) && path@ == dtbo)
    }
    &&& !spec_has_suffix(dtbo, ".dts"@) && base_name_ok(dtbo) ==> {
        &&& phase is AwaitOverlayFileUpload
        &&& overlay_name == spec_base_name(dtbo)
        &&& (r matches Step::Do(Action::UploadFile { name, local_path }) && name@
            == spec_base_name(dtbo) && local_path@ == dtbo)
    }
    &&& !spec_has_suffix(dtbo, ".dts"@) && !base_name_ok(dtbo) ==> {
        &&& phase is Failed
        &&& r == Step::Failed(Failure { kind: ErrorKind::InvalidPath, stage: Stage::Resolve })
    }
}

/// The terminal register call was issued with these arguments and the
/// cleanup-eligible flag set.
pub open spec fn register_issued(
    accel: Seq<char>,
    image: Seq<char>,
    overlay: Seq<char>,
    metadata: Option<Seq<char>>,
    r: Step,
) -> bool {
    r matches Step::Do(
        Action::Register { accel: a, image: i, overlay: o, metadata: m, cleanup },
    ) && a@ == accel && i@ == image && o@ == overlay && cleanup == true && (m is Some <==> metadata
        is Some) && (m matches Some(mm) ==> mm@ == metadata->0)
}

/// Accelerator package registration: stage the binary image (a `.bit` input
/// is uploaded and converted remotely, anything else uploaded directly),
/// stage the overlay (stem-named when compiled from `.dts`), optionally
/// stage a metadata file, register the package, and then remove every
/// staged artifact in staging order — aborting the cleanup on its first
/// failed removal. Any failure before the register call leaves staged
/// artifacts uploaded.
pub struct RegisterFlow {
    /// The name the package is registered under.
    pub accel_name: String,
    /// The local bitstream or binary-image path.
    pub bitstream_file: String,
    /// The overlay input path: a precompiled `.dtbo`, or a `.dts` source.
    pub dtbo_file: String,
    /// An optional local metadata file to register alongside.
    pub json_file: Option<String>,
    /// The remote name of the uploaded `.bit` bitstream, once resolved.
    pub bit_name: String,
    /// The remote name of the binary image handed to the register call.
    pub image_name: String,
    /// The remote overlay name, once resolved.
    pub overlay_name: String,
    /// The remote metadata name, once resolved.
    pub json_name: String,
    /// Names staged so far, in upload order.
    pub ledger: Ledger,
    /// Progress of the fail-fast cleanup.
    pub drain: DrainState,
    /// The names whose removal has been issued, in issue order.
    pub removals: Ghost<Seq<Seq<char>>>,
    pub phase: RegisterPhase,
}

impl RegisterFlow {
    /// Internal consistency: removals are issued for ledger entries in
    /// order, and none before the register call succeeds. On failure the
    /// removal trace is either empty (the workflow failed before its
    /// cleanup) or the prefix of the ledger through the removal that
    /// failed (the fail-fast cleanup aborted).
    pub open spec fn wf(self) -> bool {
        &&& (self.phase is Draining ==> {
            &&& self.drain.next < self.ledger@.len()
            &&& self.drain.first_failure is None
            &&& self.removals@ == self.ledger@.take(self.drain.next + 1)
        })
        &&& (self.phase is Finished ==> self.removals@ == self.ledger@)
        &&& (self.phase is Failed ==> (self.removals@ == Seq::<Seq<char>>::empty()
            || self.removals@ == self.ledger@.take(self.drain.next + 1)))
        &&& (!(self.phase is Draining) && !(self.phase is Finished) && !(self.phase is Failed)
            ==> self.removals@ == Seq::<Seq<char>>::empty())
    }

    /// The events the machine can absorb in its current phase.
    pub open spec fn wants(self, ev: Event) -> bool {
        match self.phase {
            RegisterPhase::Init => ev is Start,
            RegisterPhase::AwaitBitUpload => ev is Uploaded || ev is Transport,
            RegisterPhase::AwaitBitConvert => ev is Converted || ev is Transport,
            RegisterPhase::AwaitBinUpload => ev is Uploaded || ev is Transport,
            RegisterPhase::AwaitSourceRead => ev is TextRead || ev is LocalIoFailed,
            RegisterPhase::AwaitSourceConvert => ev is SourceConverted || ev is Transport,
            RegisterPhase::AwaitOverlayBytesUpload => ev is Uploaded || ev is Transport,
            RegisterPhase::AwaitOverlayFileUpload => ev is Uploaded || ev is Transport,
            RegisterPhase::AwaitJsonUpload => ev is Uploaded || ev is Transport,
            RegisterPhase::AwaitRegister => ev is Registered || ev is Transport,
            RegisterPhase::Draining => ev is Removed || ev is Transport,
            RegisterPhase::Finished => false,
            RegisterPhase::Failed => false,
        }
    }

    pub fn new(
        accel_name: String,
        bitstream_file: String,
        dtbo_file: String,
        json_file: Option<String>,
    ) -> (r: RegisterFlow)
        ensures
            r.phase is Init,
            r.wf(),
            r.accel_name@ == accel_name@,
            r.bitstream_file@ == bitstream_file@,
            r.dtbo_file@ == dtbo_file@,
            r.json_file == json_file,
            r.ledger@ == Seq::<Seq<char>>::empty(),
    {
        RegisterFlow {
            accel_name,
            bitstream_file,
            dtbo_file,
            json_file,
            bit_name: String::new(),
            image_name: String::new(),
            overlay_name: String::new(),
            json_name: String::new(),
            ledger: Ledger::new(),
            drain: DrainState::new(),
            removals: Ghost(Seq::empty()),
            phase: RegisterPhase::Init,
        }
    }

    /// Whether `ev` answers what the machine is waiting for.
    pub fn accepts(&self, ev: &Event) -> (r: bool)
        ensures
            r == self.wants(*ev),
    {
        match self.phase {
            RegisterPhase::Init => matches!(ev, Event::Start),
            RegisterPhase::AwaitBitUpload => matches!(ev, Event::Uploaded { .. } | Event::Transport),
            RegisterPhase::AwaitBitConvert => matches!(ev, Event::Converted | Event::Transport),
            RegisterPhase::AwaitBinUpload => matches!(ev, Event::Uploaded { .. } | Event::Transport),
            RegisterPhase::AwaitSourceRead => matches!(
                ev,
                Event::TextRead { .. } | Event::LocalIoFailed,
            ),
            RegisterPhase::AwaitSourceConvert => matches!(
                ev,
                Event::SourceConverted { .. } | Event::Transport,
            ),
            RegisterPhase::AwaitOverlayBytesUpload => matches!(
                ev,
                Event::Uploaded { .. } | Event::Transport,
            ),
            RegisterPhase::AwaitOverlayFileUpload => matches!(
                ev,
                Event::Uploaded { .. } | Event::Transport,
            ),
            RegisterPhase::AwaitJsonUpload => matches!(ev, Event::Uploaded { .. } | Event::Transport),
            RegisterPhase::AwaitRegister => matches!(ev, Event::Registered | Event::Transport),
            RegisterPhase::Draining => matches!(ev, Event::Removed | Event::Transport),
            RegisterPhase::Finished => false,
            RegisterPhase::Failed => false,
        }
    }

    /// Resolve the overlay input and issue its first action.
    fn begin_overlay(&mut self) -> (r: Step)
        ensures
            final(self).accel_name@ == old(self).accel_name@,
            final(self).bitstream_file@ == old(self).bitstream_file@,
            final(self).dtbo_file@ == old(self).dtbo_file@,
            final(self).json_file == old(self).json_file,
            final(self).image_name@ == old(self).image_name@,
            final(self).ledger@ == old(self).ledger@,
            final(self).drain.next == old(self).drain.next,
            final(self).drain.first_failure == old(self).drain.first_failure,
            final(self).removals@ == old(self).removals@,
            !(final(self).phase is Draining) && !(final(self).phase is Finished),
            register_overlay_dispatched(
                old(self).dtbo_file@,
                final(self).phase,
                final(self).overlay_name@,
                r,
            ),
    {
        if has_suffix(self.dtbo_file.as_str(), ".dts") {
            self.phase = RegisterPhase::AwaitSourceRead;
            Step::Do(Action::ReadText { path: self.dtbo_file.clone() })
        } else {
            match base_name(self.dtbo_file.as_str()) {
                Ok(name) => {
                    self.overlay_name = name;
                    self.phase = RegisterPhase::AwaitOverlayFileUpload;
                    Step::Do(Action::UploadFile {
                        name: self.overlay_name.clone(),
                        local_path: self.dtbo_file.clone(),
                    })
                },
                Err(_) => {
                    self.phase = RegisterPhase::Failed;
                    Step::Failed(Failure { kind: ErrorKind::InvalidPath, stage: Stage::Resolve })
                },
            }
        }
    }

    /// Stage the metadata file if one was supplied, else issue the register
    /// call right away.
    fn stage_metadata_or_register(&mut self) -> (r: Step)
        ensures
            final(self).accel_name@ == old(self).accel_name@,
            final(self).bitstream_file@ == old(self).bitstream_file@,
            final(self).dtbo_file@ == old(self).dtbo_file@,
            final(self).json_file == old(self).json_file,
            final(self).image_name@ == old(self).image_name@,
            final(self).overlay_name@ == old(self).overlay_name@,
            final(self).ledger@ == old(self).ledger@,
            final(self).drain.next == old(self).drain.next,
            final(self).drain.first_failure == old(self).drain.first_failure,
            final(self).removals@ == old(self).removals@,
            !(final(self).phase is Draining) && !(final(self).phase is Finished),
            old(self).json_file is None ==> {
                &&& final(self).phase is AwaitRegister
                &&& register_issued(
                    old(self).accel_name@,
                    old(self).image_name@,
                    old(self).overlay_name@,
                    None::<Seq<char>>,
                    r,
                )
            },
            old(self).json_file is Some ==> ({
                let jp = (old(self).json_file->0)@;
                &&& !base_name_ok(jp) ==> {
                    &&& final(self).phase is Failed
                    &&& r == Step::Failed(
                        Failure { kind: ErrorKind::InvalidPath, stage: Stage::Resolve },
                    )
                }
                &&& base_name_ok(jp) ==> {
                    &&& final(self).phase is AwaitJsonUpload
                    &&& final(self).json_name@ == spec_base_name(jp)
                    &&& (r matches Step::Do(Action::UploadFile { name, local_path }) && name@
                        == spec_base_name(jp) && local_path@ == jp)
                }
            }),
    {
        if self.json_file.is_some() {
            let jp = self.json_file.as_ref().unwrap().clone();
            match base_name(jp.as_str()) {
                Ok(name) => {
                    self.json_name = name;
                    self.phase = RegisterPhase::AwaitJsonUpload;
                    Step::Do(Action::UploadFile {
                        name: self.json_name.clone(),
                        local_path: jp,
                    })
                },
                Err(_) => {
                    self.phase = RegisterPhase::Failed;
                    Step::Failed(Failure { kind: ErrorKind::InvalidPath, stage: Stage::Resolve })
                },
            }
        } else {
            self.phase = RegisterPhase::AwaitRegister;
            Step::Do(Action::Register {
                accel: self.accel_name.clone(),
                image: self.image_name.clone(),
                overlay: self.overlay_name.clone(),
                metadata: None,
                cleanup: true,
            })
        }
    }

    /// Issue the next removal of the fail-fast cleanup, or finish when all
    /// have been issued and acknowledged.
    fn continue_drain(&mut self) -> (r: Step)
        requires
            old(self).phase is Draining,
            old(self).wf(),
        ensures
            final(self).wf(),
            final(self).accel_name@ == old(self).accel_name@,
            final(self).bitstream_file@ == old(self).bitstream_file@,
            final(self).dtbo_file@ == old(self).dtbo_file@,
            final(self).json_file == old(self).json_file,
            final(self).ledger@ == old(self).ledger@,
            ({
                let nx = old(self).drain.next + 1;
                &&& nx < old(self).ledger@.len() ==> {
                    &&& final(self).phase is Draining
                    &&& final(self).drain.next == nx
                    &&& (r matches Step::Do(Action::Remove { name }) && name@ == old(
                        self,
                    ).ledger@[nx])
                }
                &&& nx >= old(self).ledger@.len() ==> {
                    &&& final(self).phase is Finished
                    &&& final(self).removals@ == old(self).ledger@
                    &&& r == Step::Done(old(self).drain.first_failure)
                }
            }),
    {
        let n = self.ledger.len();
        proof {
            assert(self.drain.next < n);
        }
        match self.drain.absorb(true, CleanupMode::FailFast) {
            Some(f) => {
                proof {
                    assert(false);
                }
                Step::Failed(f)
            },
            None => {
                if self.drain.next < n {
                    let name = self.ledger.name_at(self.drain.next).clone();
                    self.removals = Ghost(self.removals@.push(name@));
                    proof {
                        assert(self.removals@ =~= self.ledger@.take(self.drain.next + 1));
                    }
                    Step::Do(Action::Remove { name })
                } else {
                    self.phase = RegisterPhase::Finished;
                    proof {
                        assert(self.removals@ =~= self.ledger@);
                    }
                    Step::Done(self.drain.first_failure)
                }
            },
        }
    }

    /// Absorb one event and say what to do next.
    ///
    /// Staging: every upload answered with a `false` success flag is a
    /// `RemoteRejection` and aborts the workflow with nothing recorded.
    /// Each staged name is recorded in staging order. After the register call succeeds every
    /// recorded name is removed in that order, and the first failed
    /// removal aborts the workflow — later removals are not issued. Any
    /// failure before the register call halts the machine with no removal
    /// ever issued.
    pub fn step(&mut self, ev: Event) -> (r: Step)
        requires
            old(self).wants(ev),
            old(self).wf(),
        ensures
            final(self).wf(),
            final(self).accel_name@ == old(self).accel_name@,
            final(self).bitstream_file@ == old(self).bitstream_file@,
            final(self).dtbo_file@ == old(self).dtbo_file@,
            final(self).json_file == old(self).json_file,
            !(old(self).phase is Draining) && final(self).phase is Failed
                ==> final(self).removals@ == Seq::<Seq<char>>::empty(),
            old(self).phase is Init && spec_has_suffix(old(self).bitstream_file@, ".bit"@) ==> ({
                let bp = old(self).bitstream_file@;
                &&& final(self).ledger@ == old(self).ledger@
                &&& !base_name_ok(bp) ==> {
                    &&& final(self).phase is Failed
                    &&& r == Step::Failed(
                        Failure { kind: ErrorKind::InvalidPath, stage: Stage::Resolve },
                    )
                }
                &&& base_name_ok(bp) ==> {
                    &&& final(self).phase is AwaitBitUpload
                    &&& final(self).bit_name@ == spec_base_name(bp)
                    &&& (r matches Step::Do(Action::UploadFile { name, local_path }) && name@
                        == spec_base_name(bp) && local_path@ == bp)
                }
            }),
            old(self).phase is Init && !spec_has_suffix(old(self).bitstream_file@, ".bit"@) ==> ({
                let bp = old(self).bitstream_file@;
                &&& final(self).ledger@ == old(self).ledger@
                &&& !base_name_ok(bp) ==> {
                    &&& final(self).phase is Failed
                    &&& r == Step::Failed(
                        Failure { kind: ErrorKind::InvalidPath, stage: Stage::Resolve },
                    )
                }
                &&& base_name_ok(bp) ==> {
                    &&& final(self).phase is AwaitBinUpload
                    &&& final(self).image_name@ == spec_base_name(bp)
                    &&& (r matches Step::Do(Action::UploadFile { name, local_path }) && name@
                        == spec_base_name(bp) && local_path@ == bp)
                }
            }),
            old(self).phase is AwaitBitUpload ==> (ev matches Event::Uploaded { ok } ==> {
                &&& ok ==> {
                    &&& final(self).phase is AwaitBitConvert
                    &&& final(self).bit_name@ == old(self).bit_name@
                    &&& final(self).image_name@ == old(self).bit_name@ + ".bin"@
                    &&& final(self).ledger@ == old(self).ledger@.push(old(self).bit_name@)
                    &&& (r matches Step::Do(Action::ConvertBitstream { source, target, platform })
                        && source@ == old(self).bit_name@ && target@ == old(self).bit_name@
                        + ".bin"@ && platform@ == "zynqmp"@)
                }
                &&& !ok ==> {
                    &&& final(self).phase is Failed
                    &&& r == Step::Failed(
                        Failure { kind: ErrorKind::RemoteRejection, stage: Stage::Upload },
                    )
                }
            }),
            old(self).phase is AwaitBitUpload && ev is Transport ==> {
                &&& final(self).phase is Failed
                &&& r == Step::Failed(Failure { kind: ErrorKind::Transport, stage: Stage::Upload })
            },
            old(self).phase is AwaitBitConvert && ev is Converted ==> {
                &&& final(self).image_name@ == old(self).image_name@
                &&& final(self).ledger@ == old(self).ledger@.push(old(self).image_name@)
                &&& register_overlay_dispatched(
                    old(self).dtbo_file@,
                    final(self).phase,
                    final(self).overlay_name@,
                    r,
                )
            },
            old(self).phase is AwaitBitConvert && ev is Transport ==> {
                &&& final(self).phase is Failed
                &&& r == Step::Failed(Failure { kind: ErrorKind::Transport, stage: Stage::Convert })
            },
            old(self).phase is AwaitBinUpload ==> (ev matches Event::Uploaded { ok } ==> {
                &&& ok ==> {
                    &&& final(self).image_name@ == old(self).image_name@
                    &&& final(self).ledger@ == old(self).ledger@.push(old(self).image_name@)
                    &&& register_overlay_dispatched(
                        old(self).dtbo_file@,
                        final(self).phase,
                        final(self).overlay_name@,
                        r,
                    )
                }
                &&& !ok ==> {
                    &&& final(self).phase is Failed
                    &&& r == Step::Failed(
                        Failure { kind: ErrorKind::RemoteRejection, stage: Stage::Upload },
                    )
                }
            }),
            old(self).phase is AwaitBinUpload && ev is Transport ==> {
                &&& final(self).phase is Failed
                &&& r == Step::Failed(Failure { kind: ErrorKind::Transport, stage: Stage::Upload })
            },
            old(self).phase is AwaitSourceRead ==> (ev matches Event::TextRead { text } ==> {
                &&& final(self).phase is AwaitSourceConvert
                &&& final(self).image_name@ == old(self).image_name@
                &&& final(self).ledger@ == old(self).ledger@
                &&& (r matches Step::Do(Action::ConvertSource { source_text }) && source_text@
                    == text@)
            }),
            old(self).phase is AwaitSourceRead && ev is LocalIoFailed ==> {
                &&& final(self).phase is Failed
                &&& r == Step::Failed(Failure { kind: ErrorKind::LocalIo, stage: Stage::ReadLocal })
            },
            old(self).phase is AwaitSourceConvert ==> (ev matches Event::SourceConverted {
                ok,
                content,
            } ==> {
                &&& final(self).image_name@ == old(self).image_name@
                &&& final(self).ledger@ == old(self).ledger@
                &&& !ok ==> {
                    &&& final(self).phase is Failed
                    &&& r == Step::Failed(
                        Failure { kind: ErrorKind::RemoteRejection, stage: Stage::Convert },
                    )
                }
                &&& ok && !base_name_ok(old(self).dtbo_file@) ==> {
                    &&& final(self).phase is Failed
                    &&& r == Step::Failed(
                        Failure { kind: ErrorKind::InvalidPath, stage: Stage::Resolve },
                    )
                }
                &&& ok && base_name_ok(old(self).dtbo_file@) ==> {
                    &&& final(self).phase is AwaitOverlayBytesUpload
                    &&& final(self).overlay_name@ == spec_overlay_name(old(self).dtbo_file@, true)
                    &&& (r matches Step::Do(Action::UploadBytes { name, content: c }) && name@
                        == spec_overlay_name(old(self).dtbo_file@, true) && c@ == content@)
                }
            }),
            old(self).phase is AwaitSourceConvert && ev is Transport ==> {
                &&& final(self).phase is Failed
                &&& r == Step::Failed(Failure { kind: ErrorKind::Transport, stage: Stage::Convert })
            },
            old(self).phase is AwaitOverlayBytesUpload ==> (ev matches Event::Uploaded { ok }
                ==> ok ==> {
                &&& final(self).image_name@ == old(self).image_name@
                &&& final(self).overlay_name@ == old(self).overlay_name@
                &&& final(self).ledger@ == old(self).ledger@.push(old(self).overlay_name@)
                &&& ({
                    let post = *final(self);
                    &&& old(self).json_file is None ==> {
                        &&& post.phase is AwaitRegister
                        &&& register_issued(
                            old(self).accel_name@,
                            old(self).image_name@,
                            old(self).overlay_name@,
                            None::<Seq<char>>,
                            r,
                        )
                    }
                    &&& old(self).json_file is Some ==> ({
                        let jp = (old(self).json_file->0)@;
                        &&& !base_name_ok(jp) ==> post.phase is Failed && r == Step::Failed(
                            Failure { kind: ErrorKind::InvalidPath, stage: Stage::Resolve },
                        )
                        &&& base_name_ok(jp) ==> {
                            &&& post.phase is AwaitJsonUpload
                            &&& post.json_name@ == spec_base_name(jp)
                            &&& (r matches Step::Do(Action::UploadFile { name, local_path })
                                && name@ == spec_base_name(jp) && local_path@ == jp)
                        }
                    })
                })
            }),
            old(self).phase is AwaitOverlayBytesUpload ==> (ev matches Event::Uploaded { ok }
                ==> !ok ==> {
                &&& final(self).phase is Failed
                &&& final(self).ledger@ == old(self).ledger@
                &&& r == Step::Failed(
                    Failure { kind: ErrorKind::RemoteRejection, stage: Stage::Upload },
                )
            }),
            old(self).phase is AwaitOverlayBytesUpload && ev is Transport ==> {
                &&& final(self).phase is Failed
                &&& r == Step::Failed(Failure { kind: ErrorKind::Transport, stage: Stage::Upload })
            },
            old(self).phase is AwaitOverlayFileUpload ==> (ev matches Event::Uploaded { ok } ==> {
                &&& ok ==> {
                    &&& final(self).image_name@ == old(self).image_name@
                    &&& final(self).overlay_name@ == old(self).overlay_name@
                    &&& final(self).ledger@ == old(self).ledger@.push(old(self).overlay_name@)
                    &&& ({
                        let post = *final(self);
                        &&& old(self).json_file is None ==> {
                            &&& post.phase is AwaitRegister
                            &&& register_issued(
                                old(self).accel_name@,
                                old(self).image_name@,
                                old(self).overlay_name@,
                                None::<Seq<char>>,
                                r,
                            )
                        }
                        &&& old(self).json_file is Some ==> ({
                            let jp = (old(self).json_file->0)@;
                            &&& !base_name_ok(jp) ==> post.phase is Failed && r == Step::Failed(
                                Failure { kind: ErrorKind::InvalidPath, stage: Stage::Resolve },
                            )
                            &&& base_name_ok(jp) ==> {
                                &&& post.phase is AwaitJsonUpload
                                &&& post.json_name@ == spec_base_name(jp)
                                &&& (r matches Step::Do(Action::UploadFile { name, local_path })
                                    && name@ == spec_base_name(jp) && local_path@ == jp)
                            }
                        })
                    })
                }
                &&& !ok ==> {
                    &&& final(self).phase is Failed
                    &&& r == Step::Failed(
                        Failure { kind: ErrorKind::RemoteRejection, stage: Stage::Upload },
                    )
                }
            }),
            old(self).phase is AwaitOverlayFileUpload && ev is Transport ==> {
                &&& final(self).phase is Failed
                &&& r == Step::Failed(Failure { kind: ErrorKind::Transport, stage: Stage::Upload })
            },
            old(self).phase is AwaitJsonUpload ==> (ev matches Event::Uploaded { ok } ==> {
                &&& ok ==> {
                    &&& final(self).phase is AwaitRegister
                    &&& final(self).ledger@ == old(self).ledger@.push(old(self).json_name@)
                    &&& register_issued(
                        old(self).accel_name@,
                        old(self).image_name@,
                        old(self).overlay_name@,
                        Some(old(self).json_name@),
                        r,
                    )
                }
                &&& !ok ==> {
                    &&& final(self).phase is Failed
                    &&& r == Step::Failed(
                        Failure { kind: ErrorKind::RemoteRejection, stage: Stage::Upload },
                    )
                }
            }),
            old(self).phase is AwaitJsonUpload && ev is Transport ==> {
                &&& final(self).phase is Failed
                &&& r == Step::Failed(Failure { kind: ErrorKind::Transport, stage: Stage::Upload })
            },
            old(self).phase is AwaitRegister && ev is Registered ==> {
                &&& final(self).ledger@ == old(self).ledger@
                &&& old(self).ledger@.len() == 0 ==> {
                    &&& final(self).phase is Finished
                    &&& final(self).removals@ == old(self).ledger@
                    &&& r == Step::Done(None::<Failure>)
                }
                &&& old(self).ledger@.len() > 0 ==> {
                    &&& final(self).phase is Draining
                    &&& final(self).drain.next == 0
                    &&& (r matches Step::Do(Action::Remove { name }) && name@ == old(
                        self,
                    ).ledger@[0])
                }
            },
            old(self).phase is AwaitRegister && ev is Transport ==> {
                &&& final(self).phase is Failed
                &&& final(self).removals@ == Seq::<Seq<char>>::empty()
                &&& r == Step::Failed(Failure { kind: ErrorKind::Transport, stage: Stage::Register })
            },
            old(self).phase is Draining && ev is Removed ==> ({
                let nx = old(self).drain.next + 1;
                &&& final(self).ledger@ == old(self).ledger@
                &&& nx < old(self).ledger@.len() ==> {
                    &&& final(self).phase is Draining
                    &&& final(self).drain.next == nx
                    &&& (r matches Step::Do(Action::Remove { name }) && name@ == old(
                        self,
                    ).ledger@[nx])
                }
                &&& nx >= old(self).ledger@.len() ==> {
                    &&& final(self).phase is Finished
                    &&& final(self).removals@ == old(self).ledger@
                    &&& r == Step::Done(None::<Failure>)
                }
            }),
            old(self).phase is Draining && ev is Transport ==> {
                &&& final(self).phase is Failed
                &&& final(self).removals@ == old(self).removals@
                &&& r == Step::Failed(Failure { kind: ErrorKind::Transport, stage: Stage::Cleanup })
            },
    {
        match self.phase {
            RegisterPhase::Init => {
                if has_suffix(self.bitstream_file.as_str(), ".bit") {
                    match base_name(self.bitstream_file.as_str()) {
                        Ok(name) => {
                            self.bit_name = name;
                            self.phase = RegisterPhase::AwaitBitUpload;
                            Step::Do(Action::UploadFile {
                                name: self.bit_name.clone(),
                                local_path: self.bitstream_file.clone(),
                            })
                        },
                        Err(_) => {
                            self.phase = RegisterPhase::Failed;
                            Step::Failed(
                                Failure { kind: ErrorKind::InvalidPath, stage: Stage::Resolve },
                            )
                        },
                    }
                } else {
                    match base_name(self.bitstream_file.as_str()) {
                        Ok(name) => {
                            self.image_name = name;
                            self.phase = RegisterPhase::AwaitBinUpload;
                            Step::Do(Action::UploadFile {
                                name: self.image_name.clone(),
                                local_path: self.bitstream_file.clone(),
                            })
                        },
                        Err(_) => {
                            self.phase = RegisterPhase::Failed;
                            Step::Failed(
                                Failure { kind: ErrorKind::InvalidPath, stage: Stage::Resolve },
                            )
                        },
                    }
                }
            },
            RegisterPhase::AwaitBitUpload => {
                match ev {
                    Event::Uploaded { ok } => {
                        if ok {
                            self.ledger.record(self.bit_name.clone());
                            let mut target = self.bit_name.clone();
                            target.append(".bin");
                            self.image_name = target.clone();
                            self.phase = RegisterPhase::AwaitBitConvert;
                            Step::Do(Action::ConvertBitstream {
                                source: self.bit_name.clone(),
                                target,
                                platform: String::from_str("zynqmp"),
                            })
                        } else {
                            self.phase = RegisterPhase::Failed;
                            Step::Failed(
                                Failure { kind: ErrorKind::RemoteRejection, stage: Stage::Upload },
                            )
                        }
                    },
                    _ => {
                        self.phase = RegisterPhase::Failed;
                        Step::Failed(Failure { kind: ErrorKind::Transport, stage: Stage::Upload })
                    },
                }
            },
            RegisterPhase::AwaitBitConvert => {
                match ev {
                    Event::Converted => {
                        self.ledger.record(self.image_name.clone());
                        self.begin_overlay()
                    },
                    _ => {
                        self.phase = RegisterPhase::Failed;
                        Step::Failed(Failure { kind: ErrorKind::Transport, stage: Stage::Convert })
                    },
                }
            },
            RegisterPhase::AwaitBinUpload => {
                match ev {
                    Event::Uploaded { ok } => {
                        if ok {
                            self.ledger.record(self.image_name.clone());
                            self.begin_overlay()
                        } else {
                            self.phase = RegisterPhase::Failed;
                            Step::Failed(
                                Failure { kind: ErrorKind::RemoteRejection, stage: Stage::Upload },
                            )
                        }
                    },
                    _ => {
                        self.phase = RegisterPhase::Failed;
                        Step::Failed(Failure { kind: ErrorKind::Transport, stage: Stage::Upload })
                    },
                }
            },
            RegisterPhase::AwaitSourceRead => {
                match ev {
                    Event::TextRead { text } => {
                        self.phase = RegisterPhase::AwaitSourceConvert;
                        Step::Do(Action::ConvertSource { source_text: text })
                    },
                    _ => {
                        self.phase = RegisterPhase::Failed;
                        Step::Failed(Failure { kind: ErrorKind::LocalIo, stage: Stage::ReadLocal })
                    },
                }
            },
            RegisterPhase::AwaitSourceConvert => {
                match ev {
                    Event::SourceConverted { ok, content } => {
                        if !ok {
                            self.phase = RegisterPhase::Failed;
                            Step::Failed(
                                Failure { kind: ErrorKind::RemoteRejection, stage: Stage::Convert },
                            )
                        } else {
                            match derive_overlay_name_from_source(self.dtbo_file.as_str(), true) {
                                Ok(name) => {
                                    self.overlay_name = name;
                                    self.phase = RegisterPhase::AwaitOverlayBytesUpload;
                                    Step::Do(Action::UploadBytes {
                                        name: self.overlay_name.clone(),
                                        content,
                                    })
                                },
                                Err(_) => {
                                    self.phase = RegisterPhase::Failed;
                                    Step::Failed(
                                        Failure {
                                            kind: ErrorKind::InvalidPath,
                                            stage: Stage::Resolve,
                                        },
                                    )
                                },
                            }
                        }
                    },
                    _ => {
                        self.phase = RegisterPhase::Failed;
                        Step::Failed(Failure { kind: ErrorKind::Transport, stage: Stage::Convert })
                    },
                }
            },
            RegisterPhase::AwaitOverlayBytesUpload => {
                match ev {
                    Event::Uploaded { ok } => {
                        if ok {
                            self.ledger.record(self.overlay_name.clone());
                            self.stage_metadata_or_register()
                        } else {
                            self.phase = RegisterPhase::Failed;
                            Step::Failed(
                                Failure { kind: ErrorKind::RemoteRejection, stage: Stage::Upload },
                            )
                        }
                    },
                    _ => {
                        self.phase = RegisterPhase::Failed;
                        Step::Failed(Failure { kind: ErrorKind::Transport, stage: Stage::Upload })
                    },
                }
            },
            RegisterPhase::AwaitOverlayFileUpload => {
                match ev {
                    Event::Uploaded { ok } => {
                        if ok {
                            self.ledger.record(self.overlay_name.clone());
                            self.stage_metadata_or_register()
                        } else {
                            self.phase = RegisterPhase::Failed;
                            Step::Failed(
                                Failure { kind: ErrorKind::RemoteRejection, stage: Stage::Upload },
                            )
                        }
                    },
                    _ => {
                        self.phase = RegisterPhase::Failed;
                        Step::Failed(Failure { kind: ErrorKind::Transport, stage: Stage::Upload })
                    },
                }
            },
            RegisterPhase::AwaitJsonUpload => {
                match ev {
                    Event::Uploaded { ok } => {
                        if ok {
                            self.ledger.record(self.json_name.clone());
                            self.phase = RegisterPhase::AwaitRegister;
                            Step::Do(Action::Register {
                                accel: self.accel_name.clone(),
                                image: self.image_name.clone(),
                                overlay: self.overlay_name.clone(),
                                metadata: Some(self.json_name.clone()),
                                cleanup: true,
                            })
                        } else {
                            self.phase = RegisterPhase::Failed;
                            Step::Failed(
                                Failure { kind: ErrorKind::RemoteRejection, stage: Stage::Upload },
                            )
                        }
                    },
                    _ => {
                        self.phase = RegisterPhase::Failed;
                        Step::Failed(Failure { kind: ErrorKind::Transport, stage: Stage::Upload })
                    },
                }
            },
            RegisterPhase::AwaitRegister => {
                match ev {
                    Event::Registered => {
                        self.drain = DrainState::new();
                        let n = self.ledger.len();
                        if n == 0 {
                            self.phase = RegisterPhase::Finished;
                            proof {
                                assert(self.removals@ =~= self.ledger@);
                            }
                            Step::Done(None)
                        } else {
                            let name = self.ledger.name_at(0).clone();
                            self.removals = Ghost(self.removals@.push(name@));
                            self.phase = RegisterPhase::Draining;
                            proof {
                                assert(self.removals@ =~= self.ledger@.take(1));
                            }
                            Step::Do(Action::Remove { name })
                        }
                    },
                    _ => {
                        self.phase = RegisterPhase::Failed;
                        Step::Failed(Failure { kind: ErrorKind::Transport, stage: Stage::Register })
                    },
                }
            },
            RegisterPhase::Draining => {
                match ev {
                    Event::Removed => self.continue_drain(),
                    _ => {
                        self.phase = RegisterPhase::Failed;
                        Step::Failed(Failure { kind: ErrorKind::Transport, stage: Stage::Cleanup })
                    },
                }
            },
            RegisterPhase::Finished | RegisterPhase::Failed => {
                proof {
                    assert(false);
                }
                Step::Failed(Failure { kind: ErrorKind::Transport, stage: Stage::Register })
            },
        }
    }
}

} // verus!
