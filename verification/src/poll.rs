//! The long-poll wire contract.
//!
//! A client sends a `PollInput` naming the last event it has seen; the
//! handler answers with the snapshots that are newer than that, and with
//! the input the client should send next time.  The response is a pure
//! function of the registry state and the request, so two polls against an
//! unchanged registry return identical data — the host transport may
//! therefore hold a request until something changes or a timeout fires,
//! and answer it with `poll_response` at any moment.

use vstd::prelude::*;

use crate::progress::{ExtProgress, ProgressView};

verus! {

/// The client's opaque view-state snapshot, echoed back to it unchanged.
pub struct ViewStates {
    /// State of the log view.
    pub log: String,
    /// Selection within the log view.
    pub log_selection: String,
    /// State of the text view.
    pub text: String,
}

/// The mathematical value of a `ViewStates`.
pub struct ViewStatesView {
    /// State of the log view.
    pub log: Seq<char>,
    /// Selection within the log view.
    pub log_selection: Seq<char>,
    /// State of the text view.
    pub text: Seq<char>,
}

impl View for ViewStates {
    type V = ViewStatesView;

    open spec fn view(&self) -> ViewStatesView {
        ViewStatesView { log: self.log@, log_selection: self.log_selection@, text: self.text@ }
    }
}

impl ViewStates {
    /// Empty view state: what a poll without a body subscribes with.
    pub fn new() -> (r: ViewStates)
        ensures
            r@.log =~= Seq::<char>::empty(),
            r@.log_selection =~= Seq::<char>::empty(),
            r@.text =~= Seq::<char>::empty(),
    {
        ViewStates { log: String::new(), log_selection: String::new(), text: String::new() }
    }

    /// An independent copy, equal in value.
    pub fn duplicate(&self) -> (r: ViewStates)
        ensures
            r@ == self@,
    {
        ViewStates {
            log: self.log.clone(),
            log_selection: self.log_selection.clone(),
            text: self.text.clone(),
        }
    }
}

/// One long-poll request.
pub struct PollInput {
    /// The highest snapshot version the client has seen; zero on the first
    /// poll.
    pub last_event_id: usize,
    /// Opaque client state, echoed back.
    pub view_states: ViewStates,
    /// Task versions the client tracks, echoed back.
    pub task_states: Vec<usize>,
}

/// The mathematical value of a `PollInput`.
pub struct PollInputView {
    /// The highest snapshot version the client has seen.
    pub last_event_id: int,
    /// Opaque client state.
    pub view_states: ViewStatesView,
    /// Task versions the client tracks.
    pub task_states: Seq<usize>,
}

impl View for PollInput {
    type V = PollInputView;

    open spec fn view(&self) -> PollInputView {
        PollInputView {
            last_event_id: self.last_event_id as int,
            view_states: self.view_states@,
            task_states: self.task_states@,
        }
    }
}

impl PollInput {
    /// The request a body-less poll stands for: no prior state.
    pub fn new() -> (r: PollInput)
        ensures
            r@.last_event_id == 0,
            r@.view_states.log =~= Seq::<char>::empty(),
            r@.view_states.log_selection =~= Seq::<char>::empty(),
            r@.view_states.text =~= Seq::<char>::empty(),
            r@.task_states =~= Seq::<usize>::empty(),
    {
        PollInput { last_event_id: 0, view_states: ViewStates::new(), task_states: Vec::new() }
    }
}

/// One long-poll response.
pub struct PollResult {
    /// What the client should send on its next poll: the same opaque
    /// state, with `last_event_id` advanced to the newest version seen.
    pub next_input: PollInput,
    /// Snapshots of the tasks that changed since `last_event_id`, in
    /// registry order.
    pub background_tasks: Vec<ExtProgress>,
}

/// Which snapshots a poll with `last` as its last seen event returns:
/// exactly those whose version is newer.
pub open spec fn spec_poll_tasks(tasks: Seq<ProgressView>, last: int) -> Seq<ProgressView> {
    tasks.filter(|t: ProgressView| t.version > last)
}

/// The event id the client should present next: the newest version in the
/// registry, or `last` itself if nothing is newer.
pub open spec fn spec_next_event_id(tasks: Seq<ProgressView>, last: int) -> int
    decreases tasks.len(),
{
    if tasks.len() == 0 {
        last
    } else {
        let rest = spec_next_event_id(tasks.drop_last(), last);
        if tasks.last().version > rest {
            tasks.last().version
        } else {
            rest
        }
    }
}

/// Whether a poll has fresh data to report; the host transport holds the
/// request open while this is false and its timeout has not fired.
pub fn poll_ready(tasks: &Vec<ExtProgress>, last_event_id: usize) -> (r: bool)
    ensures
        r == (spec_poll_tasks(
            tasks@.map_values(|t: ExtProgress| t@),
            last_event_id as int,
        ).len() > 0),
{
    let ghost views = tasks@.map_values(|t: ExtProgress| t@);
    let ghost pred = |t: ProgressView| t.version > last_event_id as int;
    let mut i: usize = 0;
    while i < tasks.len()
        invariant
            0 <= i <= tasks@.len(),
            views == tasks@.map_values(|t: ExtProgress| t@),
            pred == (|t: ProgressView| t.version > last_event_id as int),
            views.take(i as int).filter(pred).len() == 0,
        decreases tasks@.len() - i,
    {
        proof {
            reveal(Seq::filter);
            assert(views.take(i + 1).drop_last() =~= views.take(i as int));
            assert(views.take(i + 1).last() == views[i as int]);
        }
        if tasks[i].version > last_event_id {
            proof {
                assert(pred(views[i as int]));
                assert(views.take(i + 1).filter(pred).len() > 0);
                lemma_filter_prefix_nonempty(views, pred, i + 1);
            }
            return true;
        }
        proof {
            assert(!pred(views[i as int]));
            assert(views.take(i + 1).filter(pred).len() == 0);
        }
        i += 1;
    }
    proof {
        assert(views.take(views.len() as int) =~= views);
    }
    false
}

/// A non-empty filtered prefix keeps the whole filtered sequence
/// non-empty.
proof fn lemma_filter_prefix_nonempty(
    s: Seq<ProgressView>,
    pred: spec_fn(ProgressView) -> bool,
    n: int,
)
    requires
        0 <= n <= s.len(),
        s.take(n).filter(pred).len() > 0,
    ensures
        s.filter(pred).len() > 0,
    decreases s.len() - n,
{
    if n == s.len() {
        assert(s.take(n) =~= s);
    } else {
        reveal(Seq::filter);
        assert(s.take(n + 1).drop_last() =~= s.take(n));
        assert(s.take(n + 1).filter(pred).len() > 0);
        lemma_filter_prefix_nonempty(s, pred, n + 1);
    }
}

/// Builds the response for one poll: the snapshots newer than the
/// client's `last_event_id`, and the input to use next time, with the
/// opaque client state echoed unchanged.
pub fn poll_response(tasks: &Vec<ExtProgress>, input: &PollInput) -> (r: PollResult)
    ensures
        r.background_tasks@.map_values(|t: ExtProgress| t@) == spec_poll_tasks(
            tasks@.map_values(|t: ExtProgress| t@),
            input@.last_event_id,
        ),
        r.next_input@.last_event_id == spec_next_event_id(
            tasks@.map_values(|t: ExtProgress| t@),
            input@.last_event_id,
        ),
        r.next_input@.view_states == input@.view_states,
        r.next_input@.task_states == input@.task_states,
{
    let ghost views = tasks@.map_values(|t: ExtProgress| t@);
    let ghost pred = |t: ProgressView| t.version > input.last_event_id as int;
    let mut selected: Vec<ExtProgress> = Vec::new();
    let mut next_id: usize = input.last_event_id;
    let mut i: usize = 0;
    while i < tasks.len()
        invariant
            0 <= i <= tasks@.len(),
            views == tasks@.map_values(|t: ExtProgress| t@),
            pred == (|t: ProgressView| t.version > input.last_event_id as int),
            selected@.map_values(|t: ExtProgress| t@) =~= views.take(i as int).filter(pred),
            next_id as int == spec_next_event_id(views.take(i as int), input.last_event_id as int),
        decreases tasks@.len() - i,
    {
        proof {
            reveal(Seq::filter);
            assert(views.take(i + 1).drop_last() =~= views.take(i as int));
            assert(views.take(i + 1).last() == views[i as int]);
        }
        if tasks[i].version > input.last_event_id {
            selected.push(tasks[i].snapshot());
        }
        if tasks[i].version > next_id {
            next_id = tasks[i].version;
        }
        proof {
            assert(selected@.map_values(|t: ExtProgress| t@) =~= views.take(i + 1).filter(pred));
        }
        i += 1;
    }
    proof {
        assert(views.take(views.len() as int) =~= views);
    }
    PollResult {
        next_input: PollInput {
            last_event_id: next_id,
            view_states: input.view_states.duplicate(),
            task_states: clone_usize_vec(&input.task_states),
        },
        background_tasks: selected,
    }
}

/// Copies a vector of plain counters.
fn clone_usize_vec(v: &Vec<usize>) -> (r: Vec<usize>)
    ensures
        r@ == v@,
{
    let mut r: Vec<usize> = Vec::new();
    let mut i: usize = 0;
    while i < v.len()
        invariant
            0 <= i <= v@.len(),
            r@ =~= v@.take(i as int),
        decreases v@.len() - i,
    {
        r.push(v[i]);
        i += 1;
    }
    proof {
        assert(v@.take(v@.len() as int) =~= v@);
    }
    r
}

/// The token handed back for the next poll covers everything the client
/// was shown: it never falls behind the token it sent, and it is at least
/// every version in the registry, so echoing it back can never surface a
/// stale-earlier snapshot again.
pub proof fn lemma_next_event_covers(tasks: Seq<ProgressView>, last: int)
    ensures
        spec_next_event_id(tasks, last) >= last,
        forall|i: int| 0 <= i < tasks.len() ==> spec_next_event_id(tasks, last)
            >= #[trigger] tasks[i].version,
    decreases tasks.len(),
{
    if tasks.len() > 0 {
        lemma_next_event_covers(tasks.drop_last(), last);
        assert(forall|i: int| 0 <= i < tasks.len() - 1 ==> tasks[i] == tasks.drop_last()[i]);
        assert(tasks.last() == tasks[tasks.len() - 1]);
    }
}

/// Polling is an idempotent read: with no state change between them, two
/// polls carrying the same `last_event_id` select the same snapshots and
/// advance to the same next event id.
pub proof fn lemma_poll_idempotent(
    tasks_then: Seq<ProgressView>,
    tasks_now: Seq<ProgressView>,
    last: int,
)
    requires
        tasks_then == tasks_now,
    ensures
        spec_poll_tasks(tasks_then, last) == spec_poll_tasks(tasks_now, last),
        spec_next_event_id(tasks_then, last) == spec_next_event_id(tasks_now, last),
{
}

} // verus!
