//! Mutual exclusion around the pipeline.
//!
//! At most one run executes at any instant. The slot keeps one active-run
//! flag and one pending-queue flag: a trigger that arrives while the slot
//! is idle starts a run; one that arrives during a run is queued to run
//! after it; any further one is dropped with a rejection. Silent concurrent
//! execution can never happen: only an admission of `Started` ever reaches
//! the pipeline.

use vstd::prelude::*;

use crate::config::Config;
use crate::pipeline::RunOutcome;
use crate::pipeline::World;
use crate::pipeline::config_author;
use crate::pipeline::perform_update;
use crate::pipeline::run_rel;
use crate::pipeline::world_wf;
use crate::pipeline::Env;
use crate::repo::PipelineError;
use crate::repo::update_message;

verus! {

/// The one-run-at-a-time slot: whether a run is executing now, and whether
/// one trigger is queued behind it.
#[derive(Clone, Copy, PartialEq, Eq, Structural, Debug)]
pub struct RunSlot {
    pub active: bool,
    pub pending: bool,
}

/// How an arriving trigger was admitted.
#[derive(Clone, Copy, PartialEq, Eq, Structural, Debug)]
pub enum Admission {
    Started,
    Queued,
    Rejected,
}

impl RunSlot {
    /// The idle slot: no run executing, nothing queued.
    pub fn new() -> (s: RunSlot)
        ensures
            s == (RunSlot { active: false, pending: false }),
    {
        RunSlot { active: false, pending: false }
    }
}

/// The slot and admission an arriving trigger produces.
pub open spec fn begin_spec(s: RunSlot) -> (RunSlot, Admission) {
    if !s.active {
        (RunSlot { active: true, pending: s.pending }, Admission::Started)
    } else if !s.pending {
        (RunSlot { active: true, pending: true }, Admission::Queued)
    } else {
        (s, Admission::Rejected)
    }
}

/// The slot after a run completes, and whether a queued trigger should now
/// run: a pending trigger keeps the slot active and starts at once; an
/// empty queue releases the slot.
pub open spec fn finish_spec(s: RunSlot) -> (RunSlot, bool) {
    if s.pending {
        (RunSlot { active: true, pending: false }, true)
    } else {
        (RunSlot { active: false, pending: false }, false)
    }
}

impl RunSlot {
    /// Admits one arriving trigger: starts it when the slot is idle, queues
    /// it when a run is executing and the queue is empty, rejects it
    /// otherwise. `Started` comes back exactly when no run was executing.
    pub fn try_begin(&mut self) -> (a: Admission)
        ensures
            *final(self) == begin_spec(*old(self)).0,
            a == begin_spec(*old(self)).1,
            a == Admission::Started <==> !old(self).active,
            final(self).active,
    {
        if !self.active {
            self.active = true;
            Admission::Started
        } else if !self.pending {
            self.pending = true;
            Admission::Queued
        } else {
            Admission::Rejected
        }
    }

    /// Ends the executing run and answers whether a queued trigger should
    /// run next, in which case the slot stays held by it.
    pub fn finish(&mut self) -> (run_next: bool)
        requires
            old(self).active,
        ensures
            *final(self) == finish_spec(*old(self)).0,
            run_next == finish_spec(*old(self)).1,
            run_next == old(self).pending,
            !final(self).pending,
    {
        if self.pending {
            self.pending = false;
            true
        } else {
            self.active = false;
            false
        }
    }
}

/// One trigger, admitted through the slot: only an admission of `Started`
/// reaches the pipeline; a queued or rejected trigger touches neither
/// workspace nor remote. The run, when one executes, holds the slot for
/// its whole duration and releases it afterwards.
pub fn run_guarded(
    slot: &mut RunSlot,
    config: &Config,
    world: &mut World,
    build: Option<u64>,
    env: &Env,
) -> (r: (Admission, Option<Result<RunOutcome, PipelineError>>))
    requires
        world_wf(old(world)@),
        old(world).next_oid < u64::MAX,
    ensures
        world_wf(final(world)@),
        r.0 == begin_spec(*old(slot)).1,
        r.0 != Admission::Started ==> *final(world) == *old(world) && r.1 is None && *final(slot)
            == begin_spec(*old(slot)).0,
        r.0 == Admission::Started ==> r.1 is Some && run_rel(
            old(world)@,
            build,
            *env,
            config_author(*config),
            update_message(config.dst.branch@),
            final(world)@,
            r.1->0,
        ) && *final(slot) == finish_spec(begin_spec(*old(slot)).0).0,
{
    let admission = slot.try_begin();
    match admission {
        Admission::Started => {
            let outcome = perform_update(config, world, build, env);
            let _run_next = slot.finish();
            (Admission::Started, Some(outcome))
        },
        Admission::Queued => (Admission::Queued, None),
        Admission::Rejected => (Admission::Rejected, None),
    }
}

/// Concurrency exclusion: of two triggers that arrive at an idle slot
/// before either run completes, exactly the first is started; the second
/// is queued, never run alongside it — and a third is rejected.
pub proof fn lemma_concurrency_exclusion(s0: RunSlot)
    requires
        !s0.active,
        !s0.pending,
    ensures
        begin_spec(s0).1 == Admission::Started,
        begin_spec(begin_spec(s0).0).1 == Admission::Queued,
        begin_spec(begin_spec(begin_spec(s0).0).0).1 == Admission::Rejected,
        begin_spec(s0).0.active,
        begin_spec(begin_spec(s0).0).0.active,
{
}

/// A queued trigger is not lost: finishing the run that blocked it hands
/// the slot straight to it, still excluding any other trigger.
pub proof fn lemma_queued_runs_after(s0: RunSlot)
    requires
        !s0.active,
        !s0.pending,
    ensures
        ({
            let held = begin_spec(begin_spec(s0).0).0;
            finish_spec(held).1 && finish_spec(held).0.active
        }),
{
}

} // verus!
