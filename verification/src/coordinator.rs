//! Decisions of the background-task coordinator.
//!
//! Two long-lived worker roles drive background indexing: an executor that
//! pulls queued triggers and runs the indexing phases, and a relay that
//! folds step-level events into the progress snapshot.  The workers'
//! blocking and channel plumbing live with the host; every decision they
//! take — which phase follows which, when a waiting poller must be woken,
//! how long to sleep between counter refreshes, what a trigger does to the
//! queue — is a function here, with its contract.

use vstd::prelude::*;

use crate::progress::{spec_apply_update, ExtProgress, ProgressUpdate};

verus! {

/// How long the relay waits for the next event: milliseconds of patience
/// while no work unit is active, and a short refresh interval while one
/// is, so the shared completed-counter is polled often.
pub const IDLE_WAIT_MILLIS: u64 = 60000;

/// The relay's wait while a work unit is active; see `IDLE_WAIT_MILLIS`.
pub const WORK_REFRESH_MILLIS: u64 = 50;

/// The phases of one indexing run, in execution order.  The cache phases
/// are best-effort: their failure never aborts the run.
#[derive(Clone, Copy, PartialEq, Eq, Structural, Debug)]
pub enum RunPhase {
    /// Load previously extracted statements from the on-disk cache.
    CacheLoad,
    /// Walk the registered roots for source files.
    Discover,
    /// Extract log statements from the discovered sources.
    Extract,
    /// Write the updated statements back to the cache.
    CacheWrite,
    /// The run is over.
    Done,
}

/// The phase a run starts with: the cache is read first when one could be
/// opened, otherwise discovery starts directly.
pub open spec fn spec_first_phase(cache_available: bool) -> RunPhase {
    if cache_available {
        RunPhase::CacheLoad
    } else {
        RunPhase::Discover
    }
}

/// The phase that follows `phase`.  The cache is written back only when
/// one is available and extraction changed anything (`changes` counts new
/// plus deleted statements).
pub open spec fn spec_next_phase(phase: RunPhase, cache_available: bool, changes: u64) -> RunPhase {
    match phase {
        RunPhase::CacheLoad => RunPhase::Discover,
        RunPhase::Discover => RunPhase::Extract,
        RunPhase::Extract => if cache_available && changes > 0 {
            RunPhase::CacheWrite
        } else {
            RunPhase::Done
        },
        RunPhase::CacheWrite => RunPhase::Done,
        RunPhase::Done => RunPhase::Done,
    }
}

/// See `spec_first_phase`.
pub fn first_phase(cache_available: bool) -> (r: RunPhase)
    ensures
        r == spec_first_phase(cache_available),
{
    if cache_available {
        RunPhase::CacheLoad
    } else {
        RunPhase::Discover
    }
}

/// See `spec_next_phase`.
pub fn next_phase(phase: RunPhase, cache_available: bool, changes: u64) -> (r: RunPhase)
    ensures
        r == spec_next_phase(phase, cache_available, changes),
{
    match phase {
        RunPhase::CacheLoad => RunPhase::Discover,
        RunPhase::Discover => RunPhase::Extract,
        RunPhase::Extract => if cache_available && changes > 0 {
            RunPhase::CacheWrite
        } else {
            RunPhase::Done
        },
        RunPhase::CacheWrite => RunPhase::Done,
        RunPhase::Done => RunPhase::Done,
    }
}

/// Every run reaches `Done`: each step of the phase order strictly
/// descends, whatever the cache availability or change count.
pub proof fn lemma_phases_terminate(phase: RunPhase, cache_available: bool, changes: u64)
    ensures
        phase != RunPhase::Done ==> phase_rank(spec_next_phase(phase, cache_available, changes))
            < phase_rank(phase),
{
}

/// A descending measure on phases, for `lemma_phases_terminate`.
pub open spec fn phase_rank(phase: RunPhase) -> nat {
    match phase {
        RunPhase::CacheLoad => 4,
        RunPhase::Discover => 3,
        RunPhase::Extract => 2,
        RunPhase::CacheWrite => 1,
        RunPhase::Done => 0,
    }
}

/// One step of the progress relay: folds the event into the snapshot and
/// decides whether blocked pollers must be woken.  Waiters are notified
/// exactly when the event crosses the idle/working status boundary, in
/// either direction, so a poller wakes as a run starts and again as it
/// stops — and for nothing in between.  A `Work` event also opens a work
/// unit (the first returned flag); every other event closes it, which
/// only governs how often the completed counter is refreshed.
pub fn relay_step(prog: &mut ExtProgress, update: ProgressUpdate) -> (r: (bool, bool))
    requires
        old(prog).version < usize::MAX,
    ensures
        final(prog)@ == spec_apply_update(old(prog)@, update),
        r.0 == update is Work,
        r.1 == ((old(prog)@.status is Working) != (final(prog)@.status is Working)),
{
    let now_active = match &update {
        ProgressUpdate::Work(_) => true,
        _ => false,
    };
    let was_working = match prog.status {
        crate::progress::Status::Working => true,
        crate::progress::Status::Idle => false,
    };
    crate::progress::apply_update(prog, update);
    let now_working = match prog.status {
        crate::progress::Status::Working => true,
        crate::progress::Status::Idle => false,
    };
    (now_active, was_working != now_working)
}

/// How many milliseconds the relay waits for the next event before
/// refreshing the completed-counter: short while a work unit is active,
/// long otherwise.
pub fn relay_wait_millis(work_active: bool) -> (r: u64)
    ensures
        r == if work_active {
            WORK_REFRESH_MILLIS as int
        } else {
            IDLE_WAIT_MILLIS as int
        },
{
    if work_active {
        WORK_REFRESH_MILLIS
    } else {
        IDLE_WAIT_MILLIS
    }
}

/// Pending triggers for the background task.  Triggers are not coalesced:
/// each one queued causes one full run once the runs before it finish.
pub struct JobQueue {
    /// How many triggered runs have not started yet.
    pub pending: u64,
}

impl JobQueue {
    /// An empty queue.
    pub fn new() -> (r: JobQueue)
        ensures
            r.pending == 0,
    {
        JobQueue { pending: 0 }
    }

    /// Queues one run request; never blocks and never coalesces.
    pub fn trigger(&mut self)
        requires
            old(self).pending < u64::MAX,
        ensures
            final(self).pending == old(self).pending + 1,
    {
        self.pending = self.pending + 1;
    }

    /// Takes one queued run request if any is pending; the executor calls
    /// this between runs.
    pub fn take_job(&mut self) -> (r: bool)
        ensures
            r == (old(self).pending > 0),
            r ==> final(self).pending == old(self).pending - 1,
            !r ==> final(self).pending == old(self).pending,
    {
        if self.pending > 0 {
            self.pending = self.pending - 1;
            true
        } else {
            false
        }
    }
}

/// Queues a run of the source-discovery task.  Non-blocking: if a run is
/// already in flight the request waits behind it and causes a full run of
/// its own.
pub fn discover_srcs(queue: &mut JobQueue)
    requires
        old(queue).pending < u64::MAX,
    ensures
        final(queue).pending == old(queue).pending + 1,
{
    queue.trigger();
}

/// An immutable snapshot of the task's progress; never blocks.
pub fn get_status(prog: &ExtProgress) -> (r: ExtProgress)
    ensures
        r@ == prog@,
{
    prog.snapshot()
}

} // verus!
