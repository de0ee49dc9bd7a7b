use perf_bench::client::handler::{Command, Event, Handler, HandlerEvent, SessionFault};

fn command(id: usize) -> Command {
    Command { id, upload_bytes: 10, download_bytes: 20 }
}

fn notified(event: Option<HandlerEvent>) -> Event {
    match event {
        Some(HandlerEvent::NotifyBehaviour(e)) => e,
        other => panic!("expected a completion, got {:?}", other),
    }
}

#[test]
fn each_command_requests_one_stream() {
    let mut h = Handler::new();
    assert!(h.is_idle());
    h.on_behaviour_event(command(1));
    h.on_behaviour_event(command(2));
    assert!(!h.is_idle());
    assert!(matches!(h.poll(), Some(HandlerEvent::OutboundSubstreamRequest)));
    assert!(matches!(h.poll(), Some(HandlerEvent::OutboundSubstreamRequest)));
    assert!(h.poll().is_none());
}

#[test]
fn streams_serve_commands_in_submission_order() {
    let mut h = Handler::new();
    for id in 1..=3 {
        h.on_behaviour_event(command(id));
    }
    assert_eq!(h.on_outbound_negotiated(), Ok(command(1)));
    assert_eq!(h.on_outbound_negotiated(), Ok(command(2)));
    assert_eq!(h.on_outbound_negotiated(), Ok(command(3)));
    assert_eq!(h.on_outbound_negotiated(), Err(SessionFault::NoPendingCommand));
}

#[test]
fn n_commands_complete_once_each() {
    let mut h = Handler::new();
    let n = 5;
    for id in 1..=n {
        h.on_behaviour_event(command(id));
    }
    for _ in 0..n {
        h.on_outbound_negotiated().unwrap();
    }
    // completion order differs from submission order
    let mut seen = Vec::new();
    for id in [3, 1, 5, 2, 4] {
        let e = h.on_execution_finished(id, Ok(())).unwrap();
        assert_eq!(e.id, id);
        assert_eq!(e.result, Ok(()));
        seen.push(e.id);
    }
    assert!(h.is_idle());
    seen.sort();
    assert_eq!(seen, vec![1, 2, 3, 4, 5]);
    assert_eq!(h.on_execution_finished(3, Ok(())).unwrap_err(), SessionFault::UnknownExecution(3));
}

#[test]
fn failed_negotiation_completes_the_oldest_waiting_command() {
    let mut h = Handler::new();
    for id in 7..=9 {
        h.on_behaviour_event(command(id));
    }
    while h.poll().is_some() {}
    assert_eq!(h.on_outbound_negotiated(), Ok(command(7)));
    assert_eq!(h.on_dial_upgrade_error("refused".to_string()), Ok(()));
    let e = notified(h.poll());
    assert_eq!(e.id, 8);
    assert_eq!(e.result, Err("refused".to_string()));
    assert_eq!(h.on_outbound_negotiated(), Ok(command(9)));
}

#[test]
fn negotiation_with_nothing_waiting_is_a_fault() {
    let mut h = Handler::new();
    assert_eq!(h.on_dial_upgrade_error("x".to_string()), Err(SessionFault::NoPendingCommand));
    assert_eq!(h.on_outbound_negotiated(), Err(SessionFault::NoPendingCommand));
    assert!(h.poll().is_none());
}

#[test]
fn second_negotiation_fails_while_first_runs() {
    let mut h = Handler::new();
    h.on_behaviour_event(command(1));
    h.on_behaviour_event(command(2));
    while h.poll().is_some() {}
    let first = h.on_outbound_negotiated().unwrap();
    assert_eq!(first.id, 1);
    h.on_dial_upgrade_error("protocol not supported".to_string()).unwrap();
    let failed = notified(h.poll());
    assert_eq!(failed.id, 2);
    assert!(failed.result.is_err());
    let done = h.on_execution_finished(1, Ok(())).unwrap();
    assert_eq!(done.id, 1);
    assert_eq!(done.result, Ok(()));
    assert!(h.is_idle());
}

#[test]
fn empty_benchmark_reports_success() {
    let mut h = Handler::new();
    h.on_behaviour_event(Command { id: 4, upload_bytes: 0, download_bytes: 0 });
    let c = h.on_outbound_negotiated().unwrap();
    assert_eq!((c.upload_bytes, c.download_bytes), (0, 0));
    let e = h.on_execution_finished(4, Ok(())).unwrap();
    assert_eq!((e.id, e.result), (4, Ok(())));
}
