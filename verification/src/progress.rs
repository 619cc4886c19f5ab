//! Progress snapshots for background indexing work.
//!
//! One `ExtProgress` records the latest observed state of a background
//! task: whether it is running, which step it is in, how many work units
//! are done, and the diagnostics its last run produced.  The coordinator
//! mutates it through the transition functions here; the long-poll handler
//! only reads snapshots.  The `version` counter increases with every
//! externally observable change, so a client can tell a fresh snapshot
//! from a stale one.

use vstd::prelude::*;

verus! {

/// Whether a background task is currently running.
#[derive(Clone, Copy, PartialEq, Eq, Structural, Debug)]
pub enum Status {
    /// No run in flight.
    Idle,
    /// A run is in flight.
    Working,
}

/// One diagnostic produced by a run: a message, the error it came from,
/// and optional advice.  Absent parts are empty strings.
pub struct ExtError {
    /// The diagnostic text.
    pub error: String,
    /// The underlying cause, if any.
    pub source: String,
    /// Advice on how to fix the problem, if any.
    pub help: String,
}

/// The mathematical value of an `ExtError`.
pub struct ErrView {
    /// The diagnostic text.
    pub error: Seq<char>,
    /// The underlying cause, if any.
    pub source: Seq<char>,
    /// Advice on how to fix the problem, if any.
    pub help: Seq<char>,
}

impl View for ExtError {
    type V = ErrView;

    open spec fn view(&self) -> ErrView {
        ErrView { error: self.error@, source: self.source@, help: self.help@ }
    }
}

impl Clone for ExtError {
    fn clone(&self) -> (r: Self)
        ensures
            r == *self,
    {
        ExtError {
            error: self.error.clone(),
            source: self.source.clone(),
            help: self.help.clone(),
        }
    }
}

/// The progress snapshot of one background task.
pub struct ExtProgress {
    /// The task identifier.
    pub id: String,
    /// Whether a run is in flight.
    pub status: Status,
    /// Increases with every externally observable change.
    pub version: usize,
    /// Label of the step the run is currently in; empty while idle.
    pub current_step: String,
    /// Work units finished within the current step.
    pub completed: u64,
    /// Work units expected for the current step; zero when unknown or idle.
    pub total: u64,
    /// Diagnostics of the last finished run, replaced wholesale at its end.
    pub messages: Vec<ExtError>,
}

/// The mathematical value of an `ExtProgress` snapshot.
#[verifier::ext_equal]
pub struct ProgressView {
    /// The task identifier.
    pub id: Seq<char>,
    /// Whether a run is in flight.
    pub status: Status,
    /// Increases with every externally observable change.
    pub version: int,
    /// Label of the step the run is currently in; empty while idle.
    pub current_step: Seq<char>,
    /// Work units finished within the current step.
    pub completed: u64,
    /// Work units expected for the current step.
    pub total: u64,
    /// Diagnostics of the last finished run.
    pub messages: Seq<ErrView>,
}

impl View for ExtProgress {
    type V = ProgressView;

    open spec fn view(&self) -> ProgressView {
        ProgressView {
            id: self.id@,
            status: self.status,
            version: self.version as int,
            current_step: self.current_step@,
            completed: self.completed,
            total: self.total,
            messages: self.messages@.map_values(|e: ExtError| e@),
        }
    }
}

/// A step-level event published while a run executes, as relayed to the
/// progress snapshot.
pub enum ProgressUpdate {
    /// One atomic step with no begin/end pairing; it leaves the task
    /// idle, so the label it carries is not kept.
    Step(String),
    /// A step begins.
    BeginStep(String),
    /// The current step ends; the label it carries is not used.
    EndStep(String),
    /// The current step expects this many work units.
    Work(u64),
}

/// The snapshot after relaying event `u` onto `p`.  Every event is an
/// externally observable change, so each one advances the version; and
/// every event that leaves the task idle clears the step label and the
/// counters, so an idle snapshot never shows a stale step.
pub open spec fn spec_apply_update(p: ProgressView, u: ProgressUpdate) -> ProgressView {
    match u {
        ProgressUpdate::Step(_) => ProgressView {
            current_step: Seq::empty(),
            status: Status::Idle,
            completed: 0,
            total: 0,
            version: p.version + 1,
            ..p
        },
        ProgressUpdate::BeginStep(msg) => ProgressView {
            current_step: msg@,
            status: Status::Working,
            version: p.version + 1,
            ..p
        },
        ProgressUpdate::EndStep(_) => ProgressView {
            current_step: Seq::empty(),
            status: Status::Idle,
            completed: 0,
            total: 0,
            version: p.version + 1,
            ..p
        },
        ProgressUpdate::Work(total) => ProgressView {
            status: Status::Working,
            completed: 0,
            total: total,
            version: p.version + 1,
            ..p
        },
    }
}

/// The snapshot at the start of a run: the task is working.
pub open spec fn spec_begin_run(p: ProgressView) -> ProgressView {
    ProgressView { status: Status::Working, version: p.version + 1, ..p }
}

/// The snapshot at the end of a run: idle again, counters reset, the step
/// label cleared, and the message list replaced wholesale by the
/// diagnostics the run collected.
pub open spec fn spec_finish_run(p: ProgressView, msgs: Seq<ErrView>) -> ProgressView {
    ProgressView {
        status: Status::Idle,
        current_step: Seq::empty(),
        completed: 0,
        total: 0,
        version: p.version + 1,
        messages: msgs,
        ..p
    }
}

impl ExtProgress {
    /// A fresh snapshot for task `id`: idle, at version zero, with no
    /// diagnostics.
    pub fn new(id: String) -> (r: ExtProgress)
        ensures
            r@.id == id@,
            r@.status is Idle,
            r@.version == 0,
            r@.current_step =~= Seq::<char>::empty(),
            r@.completed == 0,
            r@.total == 0,
            r@.messages =~= Seq::<ErrView>::empty(),
    {
        ExtProgress {
            id,
            status: Status::Idle,
            version: 0,
            current_step: String::new(),
            completed: 0,
            total: 0,
            messages: Vec::new(),
        }
    }

    /// An independent copy of the snapshot, equal in value.
    pub fn snapshot(&self) -> (r: ExtProgress)
        ensures
            r@ == self@,
    {
        let mut messages: Vec<ExtError> = Vec::new();
        let mut i: usize = 0;
        while i < self.messages.len()
            invariant
                0 <= i <= self.messages@.len(),
                messages@.len() == i,
                forall|j: int| 0 <= j < i ==> messages@[j] == self.messages@[j],
            decreases self.messages@.len() - i,
        {
            messages.push(self.messages[i].clone());
            i += 1;
        }
        let r = ExtProgress {
            id: self.id.clone(),
            status: self.status,
            version: self.version,
            current_step: self.current_step.clone(),
            completed: self.completed,
            total: self.total,
            messages,
        };
        proof {
            assert(r@.messages =~= self@.messages);
            assert(r@ =~= self@);
        }
        r
    }
}

/// Relays one event onto the snapshot, exactly as `spec_apply_update`
/// describes.
pub fn apply_update(prog: &mut ExtProgress, update: ProgressUpdate)
    requires
        old(prog).version < usize::MAX,
    ensures
        final(prog)@ == spec_apply_update(old(prog)@, update),
{
    match update {
        ProgressUpdate::Step(_) => {
            prog.current_step = String::new();
            prog.status = Status::Idle;
            prog.completed = 0;
            prog.total = 0;
            prog.version = prog.version + 1;
        },
        ProgressUpdate::BeginStep(msg) => {
            prog.current_step = msg;
            prog.status = Status::Working;
            prog.version = prog.version + 1;
        },
        ProgressUpdate::EndStep(_) => {
            prog.current_step = String::new();
            prog.status = Status::Idle;
            prog.completed = 0;
            prog.total = 0;
            prog.version = prog.version + 1;
        },
        ProgressUpdate::Work(total) => {
            prog.status = Status::Working;
            prog.completed = 0;
            prog.total = total;
            prog.version = prog.version + 1;
        },
    }
    proof {
        assert(prog@ =~= spec_apply_update(old(prog)@, update));
    }
}

/// Marks the snapshot as working at the start of a run.
pub fn begin_run(prog: &mut ExtProgress)
    requires
        old(prog).version < usize::MAX,
    ensures
        final(prog)@ == spec_begin_run(old(prog)@),
{
    prog.status = Status::Working;
    prog.version = prog.version + 1;
    proof {
        assert(prog@ =~= spec_begin_run(old(prog)@));
    }
}

/// Ends a run: resets the counters and the step label, replaces the
/// message list wholesale with the diagnostics the run collected, and
/// returns the snapshot to idle.
pub fn finish_run(prog: &mut ExtProgress, msgs: Vec<ExtError>)
    requires
        old(prog).version < usize::MAX,
    ensures
        final(prog)@ == spec_finish_run(old(prog)@, msgs@.map_values(|e: ExtError| e@)),
{
    prog.status = Status::Idle;
    prog.current_step = String::new();
    prog.completed = 0;
    prog.total = 0;
    prog.version = prog.version + 1;
    prog.messages = msgs;
    proof {
        assert(prog@ =~= spec_finish_run(old(prog)@, msgs@.map_values(|e: ExtError| e@)));
    }
}

/// Refreshes the completed-unit count from the shared work counter.  The
/// version advances only when the count actually changed: an unchanged
/// snapshot keeps its version, so a poller that saw it is not woken for
/// nothing.
pub fn refresh_completed(prog: &mut ExtProgress, completed: u64)
    requires
        old(prog).version < usize::MAX,
    ensures
        final(prog)@.completed == completed,
        completed == old(prog)@.completed ==> final(prog)@ == old(prog)@,
        completed != old(prog)@.completed ==> final(prog)@ == (ProgressView {
            completed: completed,
            version: old(prog)@.version + 1,
            ..old(prog)@
        }),
{
    if completed != prog.completed {
        prog.completed = completed;
        prog.version = prog.version + 1;
        proof {
            assert(prog@ =~= (ProgressView {
                completed: completed,
                version: old(prog)@.version + 1,
                ..old(prog)@
            }));
        }
    } else {
        proof {
            assert(prog@ =~= old(prog)@);
        }
    }
}

/// The idle-reset invariant: counters and the step label are meaningful
/// only while a run is in flight; an idle snapshot shows neither.
pub open spec fn idle_reset(p: ProgressView) -> bool {
    p.status is Idle ==> p.current_step.len() == 0 && p.completed == 0 && p.total == 0
}

/// Every transition preserves the idle-reset invariant: each event or
/// run boundary that yields an idle snapshot also clears the label and
/// the counters, and the counter refresh only runs while a work unit is
/// in flight, that is, while the task is working.
pub proof fn lemma_idle_reset_preserved(
    p: ProgressView,
    u: ProgressUpdate,
    msgs: Seq<ErrView>,
    completed: u64,
)
    ensures
        idle_reset(spec_apply_update(p, u)),
        idle_reset(spec_begin_run(p)),
        idle_reset(spec_finish_run(p, msgs)),
        p.status is Working ==> idle_reset(
            ProgressView { completed: completed, version: p.version + 1, ..p },
        ),
{
}

/// Versions only move forward: every event and every run boundary
/// strictly advances the version, and a counter refresh never lowers it.
/// Successive reads of one task's snapshot therefore observe
/// non-decreasing versions.
pub proof fn lemma_version_monotonic(p: ProgressView, u: ProgressUpdate, msgs: Seq<ErrView>)
    ensures
        spec_apply_update(p, u).version == p.version + 1,
        spec_begin_run(p).version == p.version + 1,
        spec_finish_run(p, msgs).version == p.version + 1,
{
}

/// One full trigger cycle, seen through the transitions above: a run
/// entering and leaving moves the task from idle to working and back to
/// idle with its counters reset, and the version strictly increases at
/// both boundaries.
pub proof fn lemma_run_cycle(p0: ProgressView, msgs: Seq<ErrView>)
    ensures
        spec_begin_run(p0).status is Working,
        spec_finish_run(spec_begin_run(p0), msgs).status is Idle,
        spec_finish_run(spec_begin_run(p0), msgs).completed == 0,
        spec_finish_run(spec_begin_run(p0), msgs).total == 0,
        p0.version < spec_begin_run(p0).version < spec_finish_run(
            spec_begin_run(p0),
            msgs,
        ).version,
        spec_finish_run(spec_begin_run(p0), msgs).messages == msgs,
{
}

} // verus!
