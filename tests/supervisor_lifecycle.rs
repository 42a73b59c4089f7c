use backend_supervisor::executable::backend_executable_name;
use backend_supervisor::lifecycle::{Phase, WindowEvent};
use backend_supervisor::supervisor::Supervisor;

/// Runs the events through the supervisor and collects every handle that it
/// hands out for termination, in order.
fn run_events(s: &mut Supervisor<u32>, events: &[WindowEvent]) -> Vec<u32> {
    let mut killed = Vec::new();
    for e in events {
        if let Some(pid) = s.on_window_event(*e) {
            killed.push(pid);
        }
    }
    killed
}

#[test]
fn executable_name_per_platform() {
    assert_eq!(backend_executable_name(false), "backend");
    assert_eq!(backend_executable_name(true), "backend.exe");
}

#[test]
fn new_supervisor_holds_nothing() {
    let s: Supervisor<u32> = Supervisor::new();
    assert_eq!(s.phase(), Phase::Init);
    assert!(!s.is_tracking());
}

#[test]
fn failed_spawn_leaves_no_backend() {
    let mut s: Supervisor<u32> = Supervisor::new();
    s.on_startup(Err::<u32, &str>("not found"));
    assert_eq!(s.phase(), Phase::NoBackend);
    assert!(!s.is_tracking());
}

#[test]
fn successful_spawn_is_tracked() {
    let mut s: Supervisor<u32> = Supervisor::new();
    s.on_startup(Ok::<u32, &str>(4242));
    assert_eq!(s.phase(), Phase::Tracking);
    assert!(s.is_tracking());
}

#[test]
fn scenario_no_backend_close_kills_nothing() {
    let mut s: Supervisor<u32> = Supervisor::new();
    s.on_startup(Err::<u32, &str>("not found"));
    let killed = run_events(&mut s, &[WindowEvent::Other, WindowEvent::CloseRequested]);
    assert!(killed.is_empty());
    assert_eq!(s.phase(), Phase::Terminated);
    assert!(!s.is_tracking());
}

#[test]
fn scenario_running_backend_killed_on_close() {
    let mut s: Supervisor<u32> = Supervisor::new();
    s.on_startup(Ok::<u32, &str>(1001));
    let killed = run_events(&mut s, &[WindowEvent::Other, WindowEvent::CloseRequested]);
    assert_eq!(killed, vec![1001]);
    assert_eq!(s.phase(), Phase::Terminated);
    assert!(!s.is_tracking());
}

#[test]
fn second_close_is_a_no_op() {
    let mut s: Supervisor<u32> = Supervisor::new();
    s.on_startup(Ok::<u32, &str>(77));
    assert_eq!(s.on_close_requested(), Some(77));
    assert_eq!(s.on_close_requested(), None);
    assert_eq!(s.phase(), Phase::Terminated);
}

#[test]
fn spawned_process_terminated_exactly_once() {
    let mut s: Supervisor<u32> = Supervisor::new();
    s.on_startup(Ok::<u32, &str>(9));
    let killed = run_events(
        &mut s,
        &[
            WindowEvent::Other,
            WindowEvent::CloseRequested,
            WindowEvent::Other,
            WindowEvent::CloseRequested,
            WindowEvent::CloseRequested,
        ],
    );
    assert_eq!(killed, vec![9]);
}

#[test]
fn other_events_keep_the_backend() {
    let mut s: Supervisor<u32> = Supervisor::new();
    s.on_startup(Ok::<u32, &str>(5));
    let killed = run_events(&mut s, &[WindowEvent::Other, WindowEvent::Other]);
    assert!(killed.is_empty());
    assert_eq!(s.phase(), Phase::Tracking);
    assert!(s.is_tracking());
}

#[test]
fn close_before_startup_kills_nothing() {
    let mut s: Supervisor<u32> = Supervisor::new();
    assert_eq!(s.on_close_requested(), None);
    assert_eq!(s.phase(), Phase::Terminated);
}
