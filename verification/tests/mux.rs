use dictation_server::mux::{merge, MuxSide, SessionMultiplexer};
use dictation_server::notifications::{
    engine_event_notification, EngineEvent, QueryReply,
};
use dictation_server::rpc::MicrophoneState;

fn req(s: &str) -> (MuxSide, Option<String>) {
    (MuxSide::Requests, Some(s.to_string()))
}

fn ntf(s: &str) -> (MuxSide, Option<String>) {
    (MuxSide::Notifications, Some(s.to_string()))
}

fn req_end() -> (MuxSide, Option<String>) {
    (MuxSide::Requests, None)
}

fn ntf_end() -> (MuxSide, Option<String>) {
    (MuxSide::Notifications, None)
}

#[test]
fn terminates_when_requests_end_first() {
    let inputs = vec![ntf("n1"), req("r1"), req_end(), ntf("n2"), ntf("n3"), ntf_end()];
    let out = merge(&inputs);
    assert_eq!(out, vec!["n1".to_string(), "r1".to_string()]);
}

#[test]
fn terminates_when_notifications_end_first() {
    let inputs = vec![req("r1"), ntf_end(), req("r2"), req("r3"), req_end()];
    let out = merge(&inputs);
    assert_eq!(out, vec!["r1".to_string()]);
}

#[test]
fn empty_schedule_emits_nothing() {
    let inputs: Vec<(MuxSide, Option<String>)> = Vec::new();
    assert_eq!(merge(&inputs), Vec::<String>::new());
}

#[test]
fn per_resource_notification_order_is_kept() {
    let inputs = vec![
        ntf("event-1"),
        req("resp-a"),
        ntf("event-2"),
        req("resp-b"),
        ntf("event-3"),
        req_end(),
    ];
    let out = merge(&inputs);
    let notifications: Vec<&String> =
        out.iter().filter(|l| l.starts_with("event-")).collect();
    assert_eq!(
        notifications,
        vec![&"event-1".to_string(), &"event-2".to_string(), &"event-3".to_string()]
    );
    assert_eq!(out.len(), 5);
}

#[test]
fn bridged_events_reach_the_client_in_emission_order() {
    let states = [MicrophoneState::On, MicrophoneState::Off, MicrophoneState::Sleeping];
    let lines: Vec<String> = states
        .iter()
        .map(|s| {
            engine_event_notification(2, &EngineEvent::MicrophoneState, Ok(QueryReply::Microphone(*s)))
                .unwrap()
        })
        .collect();

    let inputs = vec![
        (MuxSide::Notifications, Some(lines[0].clone())),
        req("resp-a"),
        (MuxSide::Notifications, Some(lines[1].clone())),
        req("resp-b"),
        (MuxSide::Notifications, Some(lines[2].clone())),
        req_end(),
    ];
    let out = merge(&inputs);
    let delivered: Vec<&String> = out.iter().filter(|l| l.contains("engine_notification")).collect();
    assert_eq!(delivered, vec![&lines[0], &lines[1], &lines[2]]);
}

#[test]
fn step_machine_runs_then_closes() {
    let mut mux = SessionMultiplexer::new();
    assert!(!mux.is_terminated());
    assert_eq!(
        mux.step(MuxSide::Notifications, Some("n".to_string())),
        Some("n".to_string())
    );
    assert!(!mux.is_terminated());
    assert_eq!(mux.step(MuxSide::Requests, None), None);
    assert!(mux.is_terminated());
    assert_eq!(mux.step(MuxSide::Notifications, Some("late".to_string())), None);
    assert_eq!(mux.step(MuxSide::Notifications, None), None);
    assert!(mux.is_terminated());
}

#[test]
fn step_machine_closes_from_either_side() {
    let mut mux = SessionMultiplexer::new();
    assert_eq!(mux.step(MuxSide::Notifications, None), None);
    assert!(mux.is_terminated());
    assert_eq!(mux.step(MuxSide::Requests, Some("r".to_string())), None);
}
