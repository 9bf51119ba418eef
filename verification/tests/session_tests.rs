use remote_audio::session::{Action, Event, RetryPolicy, Session, SessionState};

fn policy() -> RetryPolicy {
    RetryPolicy::unbounded(100, 1000)
}

#[test]
fn backoff_doubles_up_to_the_ceiling() {
    let p = policy();
    assert_eq!(p.max_attempts, None);
    let delays: Vec<u64> = (0..7).map(|n| p.delay_ms(n)).collect();
    assert_eq!(delays, vec![100, 200, 400, 800, 1000, 1000, 1000]);
    assert_eq!(p.delay_ms(64), 1000);
    assert_eq!(p.delay_ms(u32::MAX), 1000);
}

#[test]
fn backoff_edge_cases() {
    assert_eq!(RetryPolicy::unbounded(0, 1000).delay_ms(10), 0);
    assert_eq!(RetryPolicy::unbounded(5000, 1000).delay_ms(0), 1000);
    assert_eq!(RetryPolicy::unbounded(7, 7).delay_ms(3), 7);
    assert_eq!(RetryPolicy::unbounded(1, u64::MAX).delay_ms(63), 1 << 63);
    assert_eq!(RetryPolicy::unbounded(1, u64::MAX).delay_ms(64), u64::MAX);
    assert_eq!(RetryPolicy::unbounded(3, u64::MAX).delay_ms(2), 12);
}

#[test]
fn a_session_starts_connecting() {
    let s = Session::new(policy());
    assert_eq!(s.state, SessionState::Connecting);
    assert!(!s.is_established());
    assert!(!s.is_closed());
    assert_eq!(s.reconnect_count, 0);
    assert!(!s.shutdown_requested);
}

#[test]
fn first_connection_is_no_reconnect() {
    let mut s = Session::new(policy());
    assert_eq!(s.step(Event::Connected), Action::StartLoops);
    assert!(s.is_established());
    assert_eq!(s.reconnect_count, 0);
}

#[test]
fn fault_drains_then_reconnects() {
    let mut s = Session::new(policy());
    s.step(Event::Connected);
    assert_eq!(s.step(Event::IoFault), Action::JoinLoops);
    assert_eq!(s.state, SessionState::Draining);
    // the other loop fails too while draining
    assert_eq!(s.step(Event::IoFault), Action::Idle);
    assert_eq!(s.state, SessionState::Draining);
    assert_eq!(s.step(Event::LoopsJoined), Action::Dial { delay_ms: 100 });
    assert_eq!(s.state, SessionState::Connecting);
    assert_eq!(s.step(Event::ConnectFailed), Action::Dial { delay_ms: 100 });
    assert_eq!(s.step(Event::ConnectFailed), Action::Dial { delay_ms: 200 });
    assert_eq!(s.step(Event::ConnectFailed), Action::Dial { delay_ms: 400 });
    assert_eq!(s.failed_attempts, 3);
    assert_eq!(s.step(Event::Connected), Action::StartLoops);
    assert_eq!(s.state, SessionState::Established);
    assert_eq!(s.reconnect_count, 1);
    assert_eq!(s.failed_attempts, 0);
}

#[test]
fn shutdown_while_established_closes_after_the_join() {
    let mut s = Session::new(policy());
    s.step(Event::Connected);
    assert_eq!(s.step(Event::ShutdownRequested), Action::JoinLoops);
    assert_eq!(s.state, SessionState::Draining);
    assert_eq!(s.step(Event::LoopsJoined), Action::Release);
    assert!(s.is_closed());
    assert!(!s.gave_up);
}

#[test]
fn shutdown_while_draining_prevents_the_reconnect() {
    let mut s = Session::new(policy());
    s.step(Event::Connected);
    s.step(Event::IoFault);
    assert_eq!(s.step(Event::ShutdownRequested), Action::Idle);
    assert_eq!(s.step(Event::LoopsJoined), Action::Release);
    assert_eq!(s.state, SessionState::Closed);
}

#[test]
fn shutdown_while_connecting_closes_at_once() {
    let mut s = Session::new(policy());
    assert_eq!(s.step(Event::ShutdownRequested), Action::Release);
    assert!(s.is_closed());
}

#[test]
fn closed_is_terminal() {
    let mut s = Session::new(policy());
    s.step(Event::ShutdownRequested);
    let closed = s;
    for e in [
        Event::Connected,
        Event::ConnectFailed,
        Event::IoFault,
        Event::ShutdownRequested,
        Event::LoopsJoined,
    ] {
        assert_eq!(s.step(e), Action::Idle);
        assert_eq!(s, closed);
    }
}

#[test]
fn events_out_of_place_change_nothing() {
    let mut s = Session::new(policy());
    let before = s;
    assert_eq!(s.step(Event::IoFault), Action::Idle);
    assert_eq!(s.step(Event::LoopsJoined), Action::Idle);
    assert_eq!(s, before);
    s.step(Event::Connected);
    let before = s;
    assert_eq!(s.step(Event::Connected), Action::Idle);
    assert_eq!(s.step(Event::ConnectFailed), Action::Idle);
    assert_eq!(s.step(Event::LoopsJoined), Action::Idle);
    assert_eq!(s, before);
}

#[test]
fn bounded_retries_give_up() {
    let p = RetryPolicy { base_delay_ms: 100, max_delay_ms: 1000, max_attempts: Some(3) };
    let mut s = Session::new(p);
    assert_eq!(s.step(Event::ConnectFailed), Action::Dial { delay_ms: 100 });
    assert_eq!(s.step(Event::ConnectFailed), Action::Dial { delay_ms: 200 });
    assert_eq!(s.step(Event::ConnectFailed), Action::Release);
    assert!(s.is_closed());
    assert!(s.gave_up);
    assert_eq!(s.failed_attempts, 3);
}

#[test]
fn unbounded_retries_never_give_up() {
    let mut s = Session::new(policy());
    for _ in 0..1000 {
        s.step(Event::ConnectFailed);
    }
    assert_eq!(s.state, SessionState::Connecting);
    assert_eq!(s.step(Event::ConnectFailed), Action::Dial { delay_ms: 1000 });
}
