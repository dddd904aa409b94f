use graph_gateway::lifecycle::{Completion, Event, Lifecycle, ServerHandle, ShutdownTrigger, Stage};

#[test]
fn drain_lets_streams_finish() {
    let mut handle = ServerHandle::new(String::from("127.0.0.1:4100"));
    assert_eq!(handle.listen_address, "127.0.0.1:4100");
    handle.note_event(Event::ServingStarted);
    assert_eq!(handle.lifecycle.stage, Stage::Serving);
    handle.note_event(Event::RequestStarted);
    assert_eq!(handle.lifecycle.in_flight, 1);

    handle.shutdown();
    assert_eq!(handle.lifecycle.stage, Stage::Draining);
    assert_eq!(handle.lifecycle.in_flight, 1, "the stream must keep running");
    assert_eq!(handle.completion(), Completion::Pending);

    // No new connection is accepted after the trigger fired.
    handle.note_event(Event::RequestStarted);
    assert_eq!(handle.lifecycle.in_flight, 1);

    handle.note_event(Event::RequestFinished);
    assert_eq!(handle.lifecycle.stage, Stage::Terminated);
    assert_eq!(handle.completion(), Completion::Success);
}

#[test]
fn shutdown_twice_is_harmless() {
    let mut handle = ServerHandle::new(String::from("127.0.0.1:4100"));
    handle.note_event(Event::ServingStarted);
    handle.note_event(Event::RequestStarted);
    handle.shutdown();
    let stage = handle.lifecycle.stage;
    let in_flight = handle.lifecycle.in_flight;
    handle.shutdown();
    assert_eq!(handle.lifecycle.stage, stage);
    assert_eq!(handle.lifecycle.in_flight, in_flight);
    assert_eq!(handle.completion(), Completion::Pending);
    handle.note_event(Event::RequestFinished);
    assert_eq!(handle.completion(), Completion::Success);
}

#[test]
fn trigger_fires_at_most_once() {
    let mut trigger = ShutdownTrigger::new();
    assert!(trigger.fire());
    assert!(!trigger.fire());
    assert!(!trigger.fire());
}

#[test]
fn shutdown_before_serving_still_terminates() {
    let mut handle = ServerHandle::new(String::from("127.0.0.1:4100"));
    handle.shutdown();
    assert_eq!(handle.completion(), Completion::Pending);
    handle.note_event(Event::ServingStarted);
    assert_eq!(handle.lifecycle.stage, Stage::Terminated);
    assert_eq!(handle.completion(), Completion::Success);
}

#[test]
fn bind_failure_is_a_lifecycle_error() {
    let mut lifecycle = Lifecycle::init();
    lifecycle.step(Event::BindFailed);
    assert_eq!(lifecycle.completion(), Completion::LifecycleError);
}

#[test]
fn serving_task_failure_is_a_lifecycle_error() {
    let mut handle = ServerHandle::new(String::from("127.0.0.1:4100"));
    handle.note_event(Event::ServingStarted);
    handle.note_event(Event::ServingFailed);
    assert_eq!(handle.completion(), Completion::LifecycleError);
}

#[test]
fn idle_shutdown_terminates_immediately() {
    let mut handle = ServerHandle::new(String::from("127.0.0.1:4100"));
    handle.note_event(Event::ServingStarted);
    handle.shutdown();
    assert_eq!(handle.lifecycle.stage, Stage::Terminated);
    assert_eq!(handle.completion(), Completion::Success);
}
