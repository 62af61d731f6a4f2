use vstd::prelude::*;
use crate::artifact::BuildOutcome;
use crate::slot::ArtifactSlot;
use crate::trigger::{deadline_after, RebuildTrigger};

verus! {

/// What a finished build amounts to, for the log.
#[derive(Debug, PartialEq, Eq)]
pub enum BuildReport {
    /// The artifact of this many bytes now waits in the slot.
    Published(usize),
    /// The build failed with this diagnostic; the slot was left alone.
    Failed(String),
}

/// The decisions of the background builder: when to start a build, and what
/// to do with its outcome. The caller waits for changes and the clock, runs
/// the compiler, and reports back.
#[derive(Debug)]
pub struct BuildWorker {
    trigger: RebuildTrigger,
    building: bool,
    queued: bool,
}

impl BuildWorker {
    pub closed spec fn trigger(&self) -> RebuildTrigger {
        self.trigger
    }

    /// A build is running.
    pub closed spec fn building(&self) -> bool {
        self.building
    }

    /// A signal came while a build was running; one more build follows it.
    pub closed spec fn queued(&self) -> bool {
        self.queued
    }

    pub fn new(window: u64) -> (r: Self)
        ensures
            r.trigger().window() == window,
            r.trigger().deadline() is None,
            !r.building(),
            !r.queued(),
    {
        BuildWorker { trigger: RebuildTrigger::new(window), building: false, queued: false }
    }

    /// When the caller should look at the clock next; `None` while there is
    /// nothing to wait for but the next change.
    pub fn next_deadline(&self) -> (r: Option<u64>)
        ensures
            r == self.trigger().deadline(),
    {
        self.trigger.next_deadline()
    }

    pub fn is_building(&self) -> (r: bool)
        ensures
            r == self.building(),
    {
        self.building
    }

    /// A change under the watched tree was seen at `now`.
    pub fn on_change(&mut self, now: u64)
        ensures
            final(self).trigger().window() == old(self).trigger().window(),
            final(self).trigger().deadline() == Some(
                deadline_after(now, old(self).trigger().window()),
            ),
            final(self).building() == old(self).building(),
            final(self).queued() == old(self).queued(),
    {
        self.trigger.on_change(now);
    }

    /// Looks at the clock at `now`. Returns true when the caller must start
    /// a build. A signal that comes while a build runs is kept, and the build
    /// it asks for starts when the running one finishes.
    pub fn on_tick(&mut self, now: u64) -> (start: bool)
        ensures
            ({
                let fired = old(self).trigger().deadline() matches Some(d) && d <= now;
                &&& start == (fired && !old(self).building())
                &&& final(self).trigger().window() == old(self).trigger().window()
                &&& final(self).trigger().deadline() == if fired {
                    None
                } else {
                    old(self).trigger().deadline()
                }
                &&& final(self).building() == (old(self).building() || fired)
                &&& final(self).queued() == (old(self).queued() || (fired && old(self).building()))
            }),
    {
        let fired = self.trigger.poll(now);
        if !fired {
            false
        } else if self.building {
            self.queued = true;
            false
        } else {
            self.building = true;
            true
        }
    }

    /// Takes in the outcome of the build that ran. A success is published
    /// into `slot`, replacing anything not yet taken; a failure leaves `slot`
    /// exactly as it was. Returns what to log, and whether the caller must
    /// start the build that was asked for meanwhile.
    pub fn finish_build(&mut self, slot: &mut ArtifactSlot, outcome: BuildOutcome) -> (r: (
        BuildReport,
        bool,
    ))
        ensures
            match outcome {
                BuildOutcome::Success(a) => final(slot)@ == Some(a) && r.0 == BuildReport::Published(
                    a.code@.len() as usize,
                ),
                BuildOutcome::Failure(msg) => final(slot)@ == old(slot)@ && r.0
                    == BuildReport::Failed(msg),
            },
            r.1 == old(self).queued(),
            final(self).building() == old(self).queued(),
            !final(self).queued(),
            final(self).trigger() == old(self).trigger(),
    {
        let report = match outcome {
            BuildOutcome::Success(artifact) => {
                let size = artifact.size();
                slot.publish(artifact);
                BuildReport::Published(size)
            },
            BuildOutcome::Failure(msg) => BuildReport::Failed(msg),
        };
        let again = self.queued;
        self.queued = false;
        self.building = again;
        (report, again)
    }
}

} // verus!
