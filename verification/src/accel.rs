use vstd::prelude::*;
use crate::errors::{ErrorKind, Failure, Stage};
use crate::protocol::{Action, Event, Step};

verus! {

/// Phases of a workflow made of one remote call.
#[derive(Clone, Copy, Debug, PartialEq, Eq, Structural)]
pub enum CallPhase {
    /// Freshly created; waiting for `Start`.
    Init,
    /// The single remote call was issued.
    AwaitReply,
    /// Terminal success.
    Finished,
    /// Terminal failure.
    Failed,
}

/// The slot an unload targets when none was given: slot `0`.
pub fn slot_or_default(slot: Option<i32>) -> (r: i32)
    ensures
        slot is Some ==> r == slot->0,
        slot is None ==> r == 0,
{
    match slot {
        Some(s) => s,
        None => 0,
    }
}

/// Accelerator package unregistration: one remote call by name, no staging.
pub struct UnregisterFlow {
    /// The name of the package to unregister.
    pub accel_name: String,
    pub phase: CallPhase,
}

impl UnregisterFlow {
    /// The events the machine can absorb in its current phase.
    pub open spec fn wants(self, ev: Event) -> bool {
        match self.phase {
            CallPhase::Init => ev is Start,
            CallPhase::AwaitReply => ev is Unregistered || ev is Transport,
            CallPhase::Finished => false,
            CallPhase::Failed => false,
        }
    }

    pub fn new(accel_name: String) -> (r: UnregisterFlow)
        ensures
            r.phase is Init,
            r.accel_name@ == accel_name@,
    {
        UnregisterFlow { accel_name, phase: CallPhase::Init }
    }

    /// Whether `ev` answers what the machine is waiting for.
    pub fn accepts(&self, ev: &Event) -> (r: bool)
        ensures
            r == self.wants(*ev),
    {
        match self.phase {
            CallPhase::Init => matches!(ev, Event::Start),
            CallPhase::AwaitReply => matches!(ev, Event::Unregistered | Event::Transport),
            CallPhase::Finished => false,
            CallPhase::Failed => false,
        }
    }

    /// Absorb one event and say what to do next.
    pub fn step(&mut self, ev: Event) -> (r: Step)
        requires
            old(self).wants(ev),
        ensures
            final(self).accel_name@ == old(self).accel_name@,
            old(self).phase is Init ==> {
                &&& final(self).phase is AwaitReply
                &&& (r matches Step::Do(Action::Unregister { accel }) && accel@ == old(
                    self,
                ).accel_name@)
            },
            old(self).phase is AwaitReply && ev is Unregistered ==> {
                &&& final(self).phase is Finished
                &&& r == Step::Done(None::<Failure>)
            },
            old(self).phase is AwaitReply && ev is Transport ==> {
                &&& final(self).phase is Failed
                &&& r == Step::Failed(
                    Failure { kind: ErrorKind::Transport, stage: Stage::Unregister },
                )
            },
    {
        match self.phase {
            CallPhase::Init => {
                self.phase = CallPhase::AwaitReply;
                Step::Do(Action::Unregister { accel: self.accel_name.clone() })
            },
            CallPhase::AwaitReply => {
                match ev {
                    Event::Unregistered => {
                        self.phase = CallPhase::Finished;
                        Step::Done(None)
                    },
                    _ => {
                        self.phase = CallPhase::Failed;
                        Step::Failed(
                            Failure { kind: ErrorKind::Transport, stage: Stage::Unregister },
                        )
                    },
                }
            },
            CallPhase::Finished | CallPhase::Failed => {
                proof {
                    assert(false);
                }
                Step::Failed(Failure { kind: ErrorKind::Transport, stage: Stage::Unregister })
            },
        }
    }
}

/// Accelerator package load: one remote call by name. The reply's success
/// flag and its transport outcome are independent failure signals: a
/// `false` flag is surfaced as a load failure even when the call itself
/// completed.
pub struct LoadFlow {
    /// The name of the package to load.
    pub accel_name: String,
    /// The slot the package was loaded to, meaningful once finished.
    pub loaded_slot: i32,
    pub phase: CallPhase,
}

impl LoadFlow {
    /// The events the machine can absorb in its current phase.
    pub open spec fn wants(self, ev: Event) -> bool {
        match self.phase {
            CallPhase::Init => ev is Start,
            CallPhase::AwaitReply => ev is AccelLoaded || ev is Transport,
            CallPhase::Finished => false,
            CallPhase::Failed => false,
        }
    }

    pub fn new(accel_name: String) -> (r: LoadFlow)
        ensures
            r.phase is Init,
            r.accel_name@ == accel_name@,
    {
        LoadFlow { accel_name, loaded_slot: 0, phase: CallPhase::Init }
    }

    /// Whether `ev` answers what the machine is waiting for.
    pub fn accepts(&self, ev: &Event) -> (r: bool)
        ensures
            r == self.wants(*ev),
    {
        match self.phase {
            CallPhase::Init => matches!(ev, Event::Start),
            CallPhase::AwaitReply => matches!(ev, Event::AccelLoaded { .. } | Event::Transport),
            CallPhase::Finished => false,
            CallPhase::Failed => false,
        }
    }

    /// Absorb one event and say what to do next. The load fails exactly
    /// when the reply's success flag is `false` or its transport failed.
    pub fn step(&mut self, ev: Event) -> (r: Step)
        requires
            old(self).wants(ev),
        ensures
            final(self).accel_name@ == old(self).accel_name@,
            old(self).phase is Init ==> {
                &&& final(self).phase is AwaitReply
                &&& (r matches Step::Do(Action::LoadAccel { accel }) && accel@ == old(
                    self,
                ).accel_name@)
            },
            old(self).phase is AwaitReply ==> (ev matches Event::AccelLoaded { ok, slot } ==> {
                &&& ok ==> {
                    &&& final(self).phase is Finished
                    &&& final(self).loaded_slot == slot
                    &&& r == Step::Done(None::<Failure>)
                }
                &&& !ok ==> {
                    &&& final(self).phase is Failed
                    &&& r == Step::Failed(
                        Failure { kind: ErrorKind::RemoteRejection, stage: Stage::Load },
                    )
                }
            }),
            old(self).phase is AwaitReply && ev is Transport ==> {
                &&& final(self).phase is Failed
                &&& r == Step::Failed(Failure { kind: ErrorKind::Transport, stage: Stage::Load })
            },
    {
        match self.phase {
            CallPhase::Init => {
                self.phase = CallPhase::AwaitReply;
                Step::Do(Action::LoadAccel { accel: self.accel_name.clone() })
            },
            CallPhase::AwaitReply => {
                match ev {
                    Event::AccelLoaded { ok, slot } => {
                        if ok {
                            self.loaded_slot = slot;
                            self.phase = CallPhase::Finished;
                            Step::Done(None)
                        } else {
                            self.phase = CallPhase::Failed;
                            Step::Failed(
                                Failure { kind: ErrorKind::RemoteRejection, stage: Stage::Load },
                            )
                        }
                    },
                    _ => {
                        self.phase = CallPhase::Failed;
                        Step::Failed(Failure { kind: ErrorKind::Transport, stage: Stage::Load })
                    },
                }
            },
            CallPhase::Finished | CallPhase::Failed => {
                proof {
                    assert(false);
                }
                Step::Failed(Failure { kind: ErrorKind::Transport, stage: Stage::Load })
            },
        }
    }
}

/// Accelerator unload: one remote call by slot number. A `false` reply is
/// surfaced as an unload failure.
pub struct UnloadFlow {
    /// The slot to unload.
    pub slot: i32,
    pub phase: CallPhase,
}

impl UnloadFlow {
    /// The events the machine can absorb in its current phase.
    pub open spec fn wants(self, ev: Event) -> bool {
        match self.phase {
            CallPhase::Init => ev is Start,
            CallPhase::AwaitReply => ev is AccelUnloaded || ev is Transport,
            CallPhase::Finished => false,
            CallPhase::Failed => false,
        }
    }

    /// Targets the given slot, or slot `0` when none was given.
    pub fn new(slot: Option<i32>) -> (r: UnloadFlow)
        ensures
            r.phase is Init,
            slot is Some ==> r.slot == slot->0,
            slot is None ==> r.slot == 0,
    {
        UnloadFlow { slot: slot_or_default(slot), phase: CallPhase::Init }
    }

    /// Whether `ev` answers what the machine is waiting for.
    pub fn accepts(&self, ev: &Event) -> (r: bool)
        ensures
            r == self.wants(*ev),
    {
        match self.phase {
            CallPhase::Init => matches!(ev, Event::Start),
            CallPhase::AwaitReply => matches!(ev, Event::AccelUnloaded { .. } | Event::Transport),
            CallPhase::Finished => false,
            CallPhase::Failed => false,
        }
    }

    /// Absorb one event and say what to do next.
    pub fn step(&mut self, ev: Event) -> (r: Step)
        requires
            old(self).wants(ev),
        ensures
            final(self).slot == old(self).slot,
            old(self).phase is Init ==> {
                &&& final(self).phase is AwaitReply
                &&& (r matches Step::Do(Action::UnloadAccel { slot }) && slot == old(self).slot)
            },
            old(self).phase is AwaitReply ==> (ev matches Event::AccelUnloaded { ok } ==> {
                &&& ok ==> {
                    &&& final(self).phase is Finished
                    &&& r == Step::Done(None::<Failure>)
                }
                &&& !ok ==> {
                    &&& final(self).phase is Failed
                    &&& r == Step::Failed(
                        Failure { kind: ErrorKind::RemoteRejection, stage: Stage::Unload },
                    )
                }
            }),
            old(self).phase is AwaitReply && ev is Transport ==> {
                &&& final(self).phase is Failed
                &&& r == Step::Failed(Failure { kind: ErrorKind::Transport, stage: Stage::Unload })
            },
    {
        match self.phase {
            CallPhase::Init => {
                self.phase = CallPhase::AwaitReply;
                Step::Do(Action::UnloadAccel { slot: self.slot })
            },
            CallPhase::AwaitReply => {
                match ev {
                    Event::AccelUnloaded { ok } => {
                        if ok {
                            self.phase = CallPhase::Finished;
                            Step::Done(None)
                        } else {
                            self.phase = CallPhase::Failed;
                            Step::Failed(
                                Failure { kind: ErrorKind::RemoteRejection, stage: Stage::Unload },
                            )
                        }
                    },
                    _ => {
                        self.phase = CallPhase::Failed;
                        Step::Failed(Failure { kind: ErrorKind::Transport, stage: Stage::Unload })
                    },
                }
            },
            CallPhase::Finished | CallPhase::Failed => {
                proof {
                    assert(false);
                }
                Step::Failed(Failure { kind: ErrorKind::Transport, stage: Stage::Unload })
            },
        }
    }
}

} // verus!
