use lnav_rs_ext::auth::{do_login, set_login_otp, CredentialStore, LoginOutcome};
use lnav_rs_ext::coordinator::{discover_srcs, relay_step, JobQueue};
use lnav_rs_ext::poll::{poll_ready, poll_response, PollInput, ViewStates};
use lnav_rs_ext::progress::{begin_run, finish_run, ExtProgress, ProgressUpdate, Status};
use lnav_rs_ext::server::{route_request, RouteDecision};

fn input_with(last_event_id: usize) -> PollInput {
    PollInput {
        last_event_id,
        view_states: ViewStates::new(),
        task_states: Vec::new(),
    }
}

#[test]
fn poll_reports_only_tasks_newer_than_the_last_event() {
    let mut task = ExtProgress::new("t".to_string());
    begin_run(&mut task); // version 1
    let tasks = vec![task];

    let r = poll_response(&tasks, &input_with(0));
    assert_eq!(r.background_tasks.len(), 1);
    assert_eq!(r.background_tasks[0].version, 1);
    assert_eq!(r.next_input.last_event_id, 1);

    let r = poll_response(&tasks, &input_with(1));
    assert!(r.background_tasks.is_empty());
    assert_eq!(r.next_input.last_event_id, 1);
}

#[test]
fn two_polls_without_a_state_change_are_identical() {
    let mut task = ExtProgress::new("t".to_string());
    begin_run(&mut task);
    let tasks = vec![task];

    let a = poll_response(&tasks, &input_with(0));
    let b = poll_response(&tasks, &input_with(0));
    assert_eq!(a.background_tasks.len(), b.background_tasks.len());
    assert_eq!(
        a.background_tasks[0].version,
        b.background_tasks[0].version
    );
    assert_eq!(a.background_tasks[0].id, b.background_tasks[0].id);
    assert_eq!(a.next_input.last_event_id, b.next_input.last_event_id);
}

#[test]
fn poll_echoes_the_client_state() {
    let tasks: Vec<ExtProgress> = Vec::new();
    let input = PollInput {
        last_event_id: 5,
        view_states: ViewStates {
            log: "L".to_string(),
            log_selection: "S".to_string(),
            text: "T".to_string(),
        },
        task_states: vec![5],
    };
    let r = poll_response(&tasks, &input);
    assert!(r.background_tasks.is_empty());
    assert_eq!(r.next_input.last_event_id, 5);
    assert_eq!(r.next_input.view_states.log, "L");
    assert_eq!(r.next_input.view_states.log_selection, "S");
    assert_eq!(r.next_input.view_states.text, "T");
    assert_eq!(r.next_input.task_states, vec![5]);
}

#[test]
fn poll_ready_tracks_fresh_data() {
    let mut task = ExtProgress::new("t".to_string());
    let tasks_before = vec![lnav_rs_ext::coordinator::get_status(&task)];
    assert!(!poll_ready(&tasks_before, 0));
    begin_run(&mut task);
    let tasks_after = vec![task];
    assert!(poll_ready(&tasks_after, 0));
    assert!(!poll_ready(&tasks_after, 1));
}

#[test]
fn control_flow_end_to_end_without_the_transport() {
    // An unauthenticated version request is refused.
    let mut store = CredentialStore::new(String::new());
    assert_eq!(
        route_request(&store, "GET", "/api/version", None, None),
        RouteDecision::Unauthorized
    );

    // Login with the correct one-time password grants a cookie.
    set_login_otp(&mut store, "otp-x".to_string());
    assert_eq!(
        route_request(&store, "GET", "/login", None, None),
        RouteDecision::Login
    );
    let session = match do_login(&mut store, Some("otp-x".to_string()), None) {
        LoginOutcome::Granted { session_id, .. } => session_id,
        LoginOutcome::Denied => panic!("expected a granted login"),
    };

    // The same client may now poll; the first poll sees no tasks.
    assert_eq!(
        route_request(&store, "POST", "/api/poll", Some(&session), None),
        RouteDecision::Poll
    );
    let mut task = ExtProgress::new(":add-source-path".to_string());
    let registry = vec![lnav_rs_ext::coordinator::get_status(&task)];
    let first = poll_response(&registry, &input_with(0));
    assert!(first.background_tasks.is_empty());

    // Triggering discovery starts a run; polls see it working with a total.
    let mut queue = JobQueue::new();
    discover_srcs(&mut queue);
    assert!(queue.take_job());
    begin_run(&mut task);
    // The run start already crossed the idle/working boundary; the work
    // unit opening inside it wakes nobody again.
    let (_, notified) = relay_step(&mut task, ProgressUpdate::Work(42));
    assert!(!notified);
    let registry = vec![lnav_rs_ext::coordinator::get_status(&task)];
    let during = poll_response(&registry, &first.next_input);
    assert_eq!(during.background_tasks.len(), 1);
    assert!(matches!(during.background_tasks[0].status, Status::Working));
    assert!(during.background_tasks[0].total > 0);

    // The run finishes; the next poll sees it idle with its messages.
    finish_run(&mut task, Vec::new());
    let registry = vec![task];
    let after = poll_response(&registry, &during.next_input);
    assert_eq!(after.background_tasks.len(), 1);
    assert!(matches!(after.background_tasks[0].status, Status::Idle));
    assert_eq!(after.background_tasks[0].completed, 0);
    assert_eq!(after.background_tasks[0].total, 0);
    assert!(after.background_tasks[0].messages.is_empty());
}
