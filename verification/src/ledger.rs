use vstd::prelude::*;
use crate::errors::{ErrorKind, Failure, Stage};

verus! {

/// The ordered remote names of artifacts uploaded by the in-progress
/// workflow invocation, kept so they can be removed after the workflow's
/// terminal remote operation succeeds.
pub struct Ledger {
    names: Vec<String>,
}

impl View for Ledger {
    type V = Seq<Seq<char>>;

    closed spec fn view(&self) -> Seq<Seq<char>> {
        self.names.deep_view()
    }
}

impl Ledger {
    /// Created empty at the start of a workflow invocation.
    pub fn new() -> (r: Ledger)
        ensures
            r@ == Seq::<Seq<char>>::empty(),
    {
        let r = Ledger { names: Vec::new() };
        proof {
            assert(r@ =~= Seq::<Seq<char>>::empty());
        }
        r
    }

    /// Appends `name`. No de-duplication: a name recorded twice will have
    /// its removal issued twice.
    pub fn record(&mut self, name: String)
        ensures
            final(self)@ == old(self)@.push(name@),
    {
        self.names.push(name);
        proof {
            assert(self@ =~= old(self)@.push(name@));
        }
    }

    /// How many names stand recorded.
    pub fn len(&self) -> (n: usize)
        ensures
            n == self@.len(),
    {
        self.names.len()
    }

    /// The `i`-th recorded name, in insertion order.
    pub fn name_at(&self, i: usize) -> (r: &String)
        requires
            i < self@.len(),
        ensures
            r@ == self@[i as int],
    {
        &self.names[i]
    }
}

/// Remote names are meant to be unique within one workflow invocation's
/// staging set: a collision would address a different artifact on the
/// remote side. Recording does not de-duplicate, so the set stays unique
/// exactly as long as every name recorded is new to it.
pub open spec fn names_distinct(names: Seq<Seq<char>>) -> bool {
    forall|i: int, j: int| 0 <= i < j < names.len() ==> names[i] != names[j]
}

/// Law: recording a name that is not already staged preserves the
/// uniqueness of the staging set.
pub proof fn lemma_record_fresh_name_keeps_distinct(names: Seq<Seq<char>>, name: Seq<char>)
    requires
        names_distinct(names),
        forall|i: int| 0 <= i < names.len() ==> names[i] != name,
    ensures
        names_distinct(names.push(name)),
{
    let p = names.push(name);
    assert forall|i: int, j: int| 0 <= i < j < p.len() implies p[i] != p[j] by {
        if j < names.len() {
            assert(p[i] == names[i] && p[j] == names[j]);
        } else {
            assert(p[i] == names[i] && p[j] == name);
        }
    }
}

/// How failures met while removing staged artifacts are treated. The two
/// strategies are deliberately distinct: one workflow drains its ledger
/// best-effort, another aborts its cleanup on the first failed removal.
#[derive(Clone, Copy, Debug, PartialEq, Eq, Structural)]
pub enum CleanupMode {
    /// Keep issuing the remaining removals past a failure; remember and
    /// report the first failure met.
    BestEffort,
    /// Abort the workflow on the first failed removal.
    FailFast,
}

/// Progress of removing every recorded name, in insertion order.
#[derive(Clone, Copy, Debug)]
pub struct DrainState {
    /// Index of the next ledger entry whose removal is to be issued.
    pub next: usize,
    /// The first removal failure met so far, if any.
    pub first_failure: Option<Failure>,
}

impl DrainState {
    /// Ready to drain from the first recorded entry on.
    pub fn new() -> (r: DrainState)
        ensures
            r.next == 0,
            r.first_failure is None,
    {
        DrainState { next: 0, first_failure: None }
    }

    /// Absorbs the outcome of removing ledger entry `next` and advances.
    /// `removed_ok` means the removal was acknowledged; otherwise its
    /// transport failed. Under `BestEffort` a failure is remembered (first
    /// one wins) and the drain goes on; under `FailFast` it aborts the
    /// workflow, which the returned failure signals.
    pub fn absorb(&mut self, removed_ok: bool, mode: CleanupMode) -> (abort: Option<Failure>)
        requires
            old(self).next < usize::MAX,
        ensures
            removed_ok ==> {
                &&& final(self).next == old(self).next + 1
                &&& final(self).first_failure == old(self).first_failure
                &&& abort is None
            },
            !removed_ok && mode is BestEffort ==> {
                &&& final(self).next == old(self).next + 1
                &&& final(self).first_failure == (if old(self).first_failure is Some {
                    old(self).first_failure
                } else {
                    Some(Failure { kind: ErrorKind::Transport, stage: Stage::Cleanup })
                })
                &&& abort is None
            },
            !removed_ok && mode is FailFast ==> {
                &&& final(self).next == old(self).next
                &&& final(self).first_failure == old(self).first_failure
                &&& abort == Some(Failure { kind: ErrorKind::Transport, stage: Stage::Cleanup })
            },
    {
        let fail = Failure { kind: ErrorKind::Transport, stage: Stage::Cleanup };
        if removed_ok {
            self.next = self.next + 1;
            None
        } else {
            match mode {
                CleanupMode::BestEffort => {
                    if self.first_failure.is_none() {
                        self.first_failure = Some(fail);
                    }
                    self.next = self.next + 1;
                    None
                },
                CleanupMode::FailFast => Some(fail),
            }
        }
    }
}

} // verus!
