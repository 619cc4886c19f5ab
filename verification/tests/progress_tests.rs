use lnav_rs_ext::coordinator::{
    discover_srcs, first_phase, get_status, next_phase, relay_step, relay_wait_millis, JobQueue,
    RunPhase,
};
use lnav_rs_ext::progress::{
    apply_update, begin_run, finish_run, refresh_completed, ExtError, ExtProgress,
    ProgressUpdate, Status,
};

#[test]
fn trigger_cycle_moves_idle_working_idle_and_bumps_version_twice() {
    let mut prog = ExtProgress::new(":add-source-path".to_string());
    assert!(matches!(prog.status, Status::Idle));
    let v0 = prog.version;

    begin_run(&mut prog);
    assert!(matches!(prog.status, Status::Working));
    let v1 = prog.version;
    assert!(v1 > v0);

    let msgs = vec![ExtError {
        error: "cannot read source file".to_string(),
        source: String::new(),
        help: String::new(),
    }];
    finish_run(&mut prog, msgs);
    assert!(matches!(prog.status, Status::Idle));
    assert_eq!(prog.completed, 0);
    assert_eq!(prog.total, 0);
    assert_eq!(prog.current_step, "");
    assert_eq!(prog.messages.len(), 1);
    assert_eq!(prog.messages[0].error, "cannot read source file");
    let v2 = prog.version;
    assert!(v2 > v1);
    assert!(v2 >= v0 + 2);
}

#[test]
fn events_update_the_snapshot_fields() {
    let mut prog = ExtProgress::new("t".to_string());

    apply_update(&mut prog, ProgressUpdate::BeginStep("discover".to_string()));
    assert!(matches!(prog.status, Status::Working));
    assert_eq!(prog.current_step, "discover");
    assert_eq!(prog.version, 1);

    apply_update(&mut prog, ProgressUpdate::Work(10));
    assert!(matches!(prog.status, Status::Working));
    assert_eq!(prog.completed, 0);
    assert_eq!(prog.total, 10);
    assert_eq!(prog.version, 2);

    refresh_completed(&mut prog, 4);
    assert_eq!(prog.completed, 4);
    assert_eq!(prog.version, 3);
    // An unchanged counter leaves the snapshot untouched.
    refresh_completed(&mut prog, 4);
    assert_eq!(prog.version, 3);

    apply_update(&mut prog, ProgressUpdate::EndStep(String::new()));
    assert!(matches!(prog.status, Status::Idle));
    assert_eq!(prog.completed, 0);
    assert_eq!(prog.total, 0);
    assert_eq!(prog.current_step, "");
    assert_eq!(prog.version, 4);

    // An atomic step leaves the task idle, so no step label survives it.
    apply_update(&mut prog, ProgressUpdate::Step("one shot".to_string()));
    assert!(matches!(prog.status, Status::Idle));
    assert_eq!(prog.current_step, "");
    assert_eq!(prog.completed, 0);
    assert_eq!(prog.total, 0);
    assert_eq!(prog.version, 5);
}

#[test]
fn idle_snapshots_never_keep_a_step_label() {
    let mut prog = ExtProgress::new("t".to_string());
    apply_update(&mut prog, ProgressUpdate::BeginStep("busy".to_string()));
    apply_update(&mut prog, ProgressUpdate::Work(5));
    refresh_completed(&mut prog, 3);
    for update in [
        ProgressUpdate::Step("s".to_string()),
        ProgressUpdate::EndStep("e".to_string()),
    ] {
        let mut p = ExtProgress {
            id: prog.id.clone(),
            status: prog.status,
            version: prog.version,
            current_step: prog.current_step.clone(),
            completed: prog.completed,
            total: prog.total,
            messages: Vec::new(),
        };
        apply_update(&mut p, update);
        assert!(matches!(p.status, Status::Idle));
        assert_eq!(p.current_step, "");
        assert_eq!(p.completed, 0);
        assert_eq!(p.total, 0);
    }
}

#[test]
fn relay_notifies_exactly_on_status_boundaries() {
    let mut prog = ExtProgress::new("t".to_string());
    // Idle -> Working: wake the pollers.
    let (active, notify) = relay_step(&mut prog, ProgressUpdate::Work(3));
    assert!(active);
    assert!(notify);
    // Working -> Working: nothing to wake for.
    let (active, notify) = relay_step(&mut prog, ProgressUpdate::Work(5));
    assert!(active);
    assert!(!notify);
    // Working -> Idle: wake the pollers.
    let (active, notify) = relay_step(&mut prog, ProgressUpdate::EndStep(String::new()));
    assert!(!active);
    assert!(notify);
    // Idle -> Working again, via a step beginning: wake the pollers,
    // though no work unit opened.
    let (active, notify) = relay_step(&mut prog, ProgressUpdate::BeginStep("s".to_string()));
    assert!(!active);
    assert!(notify);
    // Working -> Working: a step beginning inside a working run is quiet.
    let (_, notify) = relay_step(&mut prog, ProgressUpdate::BeginStep("s2".to_string()));
    assert!(!notify);
}

#[test]
fn relay_wait_is_short_only_while_work_is_active() {
    assert_eq!(relay_wait_millis(true), 50);
    assert_eq!(relay_wait_millis(false), 60000);
}

#[test]
fn job_queue_counts_triggers_without_coalescing() {
    let mut q = JobQueue::new();
    assert!(!q.take_job());
    discover_srcs(&mut q);
    discover_srcs(&mut q);
    assert_eq!(q.pending, 2);
    assert!(q.take_job());
    assert!(q.take_job());
    assert!(!q.take_job());
}

#[test]
fn phase_order_writes_cache_only_on_changes() {
    assert_eq!(first_phase(true), RunPhase::CacheLoad);
    assert_eq!(first_phase(false), RunPhase::Discover);
    assert_eq!(next_phase(RunPhase::CacheLoad, true, 0), RunPhase::Discover);
    assert_eq!(next_phase(RunPhase::Discover, true, 0), RunPhase::Extract);
    assert_eq!(next_phase(RunPhase::Extract, true, 3), RunPhase::CacheWrite);
    assert_eq!(next_phase(RunPhase::Extract, true, 0), RunPhase::Done);
    assert_eq!(next_phase(RunPhase::Extract, false, 3), RunPhase::Done);
    assert_eq!(next_phase(RunPhase::CacheWrite, true, 3), RunPhase::Done);
}

#[test]
fn get_status_returns_an_equal_independent_snapshot() {
    let mut prog = ExtProgress::new("t".to_string());
    apply_update(&mut prog, ProgressUpdate::BeginStep("step".to_string()));
    let snap = get_status(&prog);
    assert_eq!(snap.id, prog.id);
    assert_eq!(snap.version, prog.version);
    assert_eq!(snap.current_step, prog.current_step);
    // Later mutation does not reach the snapshot.
    apply_update(&mut prog, ProgressUpdate::Work(9));
    assert_eq!(snap.total, 0);
    assert_ne!(snap.version, prog.version);
}
