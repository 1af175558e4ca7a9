use libafl_centralized::codec::{COMPRESS_THRESHOLD, FLAG_COMPRESSED, FLAG_INITIALIZED, TAG_TO_MAIN};
use libafl_centralized::event::{
    ClientId, Event, EventConfig, EventKind, EventManagerId, ExitKind, LogSeverity,
};
use libafl_centralized::manager::{
    CentralizedError, CentralizedEventManager, CentralizedEventManagerBuilder, DrainStep,
    Drain, FireRoute, MainPlan, RawMessage,
};

fn testcase(input: Vec<u8>, config: EventConfig, observers: Option<Vec<u8>>) -> Event<Vec<u8>> {
    Event::NewTestcase {
        input,
        observers_buf: observers,
        exit_kind: ExitKind::Normal,
        corpus_size: 3,
        client_config: config,
        time_nanos: 1_000,
        executions: 42,
        forward_id: None,
    }
}

fn secondary(id: usize) -> CentralizedEventManager {
    CentralizedEventManager::builder().build(EventManagerId(id), EventConfig::FromName { name_hash: 9 })
}

fn main_node() -> CentralizedEventManager {
    CentralizedEventManagerBuilder::new()
        .is_main(true)
        .build(EventManagerId(0), EventConfig::FromName { name_hash: 9 })
}

fn forward_id(e: &Event<Vec<u8>>) -> Option<ClientId> {
    match e {
        Event::NewTestcase { forward_id, .. } => *forward_id,
        _ => None,
    }
}

#[test]
fn builder_defaults_to_secondary() {
    assert!(!CentralizedEventManagerBuilder::new().build(EventManagerId(1), EventConfig::BuildId).is_main());
    assert!(!CentralizedEventManagerBuilder::default().build(EventManagerId(1), EventConfig::BuildId).is_main());
    assert!(main_node().is_main());
    assert!(main_node().drains_centralized());
    assert!(!secondary(1).drains_centralized());
    assert_eq!(secondary(4).mgr_id(), EventManagerId(4));
}

#[test]
fn secondary_sends_testcase_to_main_only_and_stamps_it() {
    let m = secondary(5);
    let mut e = testcase(vec![1, 2, 3], EventConfig::BuildId, None);
    let r = m.route(&mut e);
    assert_eq!(r, FireRoute { to_main: true, to_inner: false });
    assert_eq!(forward_id(&e), Some(ClientId(5)));
}

#[test]
fn secondary_sends_heartbeat_both_ways() {
    let m = secondary(5);
    let mut e: Event<Vec<u8>> = Event::UpdateExecStats { time_nanos: 10, executions: 100 };
    assert_eq!(m.route(&mut e), FireRoute { to_main: true, to_inner: true });
    let mut s: Event<Vec<u8>> = Event::Stop;
    assert_eq!(m.route(&mut s), FireRoute { to_main: true, to_inner: true });
}

#[test]
fn secondary_keeps_log_local() {
    let m = secondary(5);
    let mut e: Event<Vec<u8>> = Event::Log { severity_level: LogSeverity::Info, message: "hi".to_string() };
    assert_eq!(m.route(&mut e), FireRoute { to_main: false, to_inner: true });
    let mut o: Event<Vec<u8>> = Event::Objective { objective_size: 1, executions: 2, time_nanos: 3 };
    assert_eq!(m.route(&mut o), FireRoute { to_main: false, to_inner: true });
}

#[test]
fn main_hands_everything_to_inner_unstamped() {
    let m = main_node();
    let mut e = testcase(vec![1], EventConfig::BuildId, None);
    assert_eq!(m.route(&mut e), FireRoute { to_main: false, to_inner: true });
    assert_eq!(forward_id(&e), None);
}

#[test]
fn frame_below_threshold_is_raw_and_above_is_compressed() {
    let m = secondary(1);
    let small = vec![7u8; COMPRESS_THRESHOLD - 1];
    let f = m.frame_for_main(small.clone());
    assert_eq!(f.tag, TAG_TO_MAIN);
    assert_eq!(f.flags, FLAG_INITIALIZED);
    assert_eq!(f.payload, small);

    let big = vec![7u8; COMPRESS_THRESHOLD + 1];
    let g = m.frame_for_main(big.clone());
    assert_eq!(g.tag, TAG_TO_MAIN);
    assert_eq!(g.flags, FLAG_INITIALIZED | FLAG_COMPRESSED);
    assert_ne!(g.payload, big);
    assert!(g.payload.len() < big.len());

    let main = main_node();
    let mut d = Drain::new(ClientId(0));
    for f in [f, g] {
        let msg = RawMessage { client_id: ClientId(3), tag: f.tag, flags: f.flags, payload: f.payload };
        match d.step(&main, Some(msg)) {
            Ok(DrainStep::Deliver { client_id, bytes }) => {
                assert_eq!(client_id, ClientId(3));
                assert!(bytes == small || bytes == big);
            }
            other => panic!("unexpected {:?}", other),
        }
    }
    assert_eq!(d.count(), 2);
}

#[test]
fn frame_at_threshold_is_compressed() {
    let m = secondary(1);
    let exact: Vec<u8> = (0..COMPRESS_THRESHOLD).map(|i| (i % 251) as u8).collect();
    let f = m.frame_for_main(exact.clone());
    assert_eq!(f.flags, FLAG_INITIALIZED | FLAG_COMPRESSED);
    assert_eq!(m.compressor_threshold(), COMPRESS_THRESHOLD);
}

#[test]
fn drain_rejects_foreign_tag() {
    let main = main_node();
    let mut d = Drain::new(ClientId(0));
    let msg = RawMessage { client_id: ClientId(3), tag: 0xDEADBEEF, flags: FLAG_INITIALIZED, payload: vec![1] };
    assert_eq!(d.step(&main, Some(msg)).unwrap_err(), CentralizedError::UnexpectedTag(0xDEADBEEF));
    assert_eq!(d.count(), 0);
}

#[test]
fn drain_skips_own_messages() {
    let main = main_node();
    let mut d = Drain::new(ClientId(8));
    let own = RawMessage { client_id: ClientId(8), tag: TAG_TO_MAIN, flags: FLAG_INITIALIZED, payload: vec![1] };
    assert!(matches!(d.step(&main, Some(own)), Ok(DrainStep::Skipped)));
    let other = RawMessage { client_id: ClientId(2), tag: TAG_TO_MAIN, flags: FLAG_INITIALIZED, payload: vec![1] };
    assert!(matches!(d.step(&main, Some(other)), Ok(DrainStep::Deliver { .. })));
    assert!(matches!(d.step(&main, None), Ok(DrainStep::Done(1))));
}

#[test]
fn drain_reports_bad_compressed_payload() {
    let main = main_node();
    let mut d = Drain::new(ClientId(8));
    let bad = RawMessage {
        client_id: ClientId(2),
        tag: TAG_TO_MAIN,
        flags: FLAG_INITIALIZED | FLAG_COMPRESSED,
        payload: vec![0xff, 0xff, 0xff, 0xff],
    };
    assert_eq!(d.step(&main, Some(bad)).unwrap_err(), CentralizedError::Compression);
    assert_eq!(d.count(), 0);
}

#[test]
fn main_plans_by_configuration_and_observers() {
    let main = main_node();
    let same = EventConfig::FromName { name_hash: 9 };
    assert_eq!(main.plan_in_main(&testcase(vec![1], same, Some(vec![0]))), Ok(MainPlan::EvaluateExecution));
    assert_eq!(main.plan_in_main(&testcase(vec![1], same, None)), Ok(MainPlan::EvaluateInput));
    let other = EventConfig::FromName { name_hash: 10 };
    assert_eq!(main.plan_in_main(&testcase(vec![1], other, Some(vec![0]))), Ok(MainPlan::EvaluateInput));
    assert_eq!(
        main.plan_in_main(&testcase(vec![1], EventConfig::AlwaysUnique, Some(vec![0]))),
        Ok(MainPlan::EvaluateInput)
    );
    let stop: Event<Vec<u8>> = Event::Stop;
    assert_eq!(main.plan_in_main(&stop), Ok(MainPlan::RequestStop));
    let log: Event<Vec<u8>> = Event::Log { severity_level: LogSeverity::Warn, message: String::new() };
    assert_eq!(main.plan_in_main(&log), Err(CentralizedError::IllegalEvent(EventKind::Log)));
    assert!(main.republish(stop, Some(1)).is_none());
}

#[test]
fn main_republishes_accepted_only() {
    // Two secondaries forward x and y; the evaluator accepts x only.
    let a = secondary(11);
    let b = secondary(12);
    let main = main_node();
    let mut x = testcase(b"x".to_vec(), EventConfig::FromName { name_hash: 9 }, Some(vec![1]));
    let mut y = testcase(b"y".to_vec(), EventConfig::FromName { name_hash: 9 }, Some(vec![2]));
    assert!(a.route(&mut x).to_main);
    assert!(b.route(&mut y).to_main);
    assert_eq!(main.plan_in_main(&x), Ok(MainPlan::EvaluateExecution));
    assert_eq!(main.plan_in_main(&y), Ok(MainPlan::EvaluateExecution));
    let out_x = main.republish(x, Some(0));
    let out_y = main.republish(y, None);
    assert!(out_y.is_none());
    match out_x {
        Some(Event::NewTestcase { input, forward_id, executions, corpus_size, .. }) => {
            assert_eq!(input, b"x".to_vec());
            assert_eq!(forward_id, Some(ClientId(11)));
            assert_eq!(executions, 42);
            assert_eq!(corpus_size, 3);
        }
        _ => panic!("x was not republished"),
    }
}

#[test]
fn config_matching() {
    let a = EventConfig::FromName { name_hash: 1 };
    assert!(a.match_with(&EventConfig::FromName { name_hash: 1 }));
    assert!(!a.match_with(&EventConfig::FromName { name_hash: 2 }));
    assert!(!EventConfig::AlwaysUnique.match_with(&EventConfig::AlwaysUnique));
    assert!(EventConfig::BuildId.match_with(&EventConfig::BuildId));
    assert!(!EventConfig::BuildId.match_with(&a));
}
