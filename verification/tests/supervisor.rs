use udp2amqp::settings::Settings;
use udp2amqp::supervisor::{Action, CycleEvent, Supervisor};

fn settings(no_reconnect: bool, limit_ms: u64) -> Settings {
    Settings {
        udp_bind_addr: String::from("127.0.0.1:9999"),
        amqp_uri: String::from("amqp://127.0.0.1:5672"),
        amqp_exchange: String::new(),
        amqp_routing_key: String::from("test"),
        http_probe_port: 8080,
        reconnect_delay_limit_ms: limit_ms,
        no_reconnect,
        debug: false,
    }
}

#[test]
fn starts_not_ready_with_zero_retries() {
    let s = Supervisor::new(&settings(false, 60000));
    assert!(!s.ready);
    assert_eq!(s.retries, 0);
}

#[test]
fn ready_after_connect_not_ready_after_failure() {
    let mut s = Supervisor::new(&settings(false, 60000));
    assert_eq!(s.step(CycleEvent::Connected), Action::RunLoop);
    assert!(s.ready);
    assert_eq!(s.step(CycleEvent::LoopFailed), Action::Retry { delay_ms: 100 });
    assert!(!s.ready);
    assert_eq!(s.step(CycleEvent::Connected), Action::RunLoop);
    assert!(s.ready);
}

#[test]
fn consecutive_failures_follow_the_backoff_sequence() {
    let mut s = Supervisor::new(&settings(false, 60000));
    assert_eq!(s.step(CycleEvent::LoopFailed), Action::Retry { delay_ms: 100 });
    assert_eq!(s.step(CycleEvent::LoopFailed), Action::Retry { delay_ms: 200 });
    assert_eq!(s.step(CycleEvent::LoopFailed), Action::Retry { delay_ms: 400 });
    assert_eq!(s.step(CycleEvent::LoopFailed), Action::Retry { delay_ms: 800 });
    assert_eq!(s.retries, 4);
}

#[test]
fn delays_cap_at_the_ceiling() {
    let mut s = Supervisor::new(&settings(false, 250));
    assert_eq!(s.step(CycleEvent::LoopFailed), Action::Retry { delay_ms: 100 });
    assert_eq!(s.step(CycleEvent::LoopFailed), Action::Retry { delay_ms: 200 });
    assert_eq!(s.step(CycleEvent::LoopFailed), Action::Retry { delay_ms: 250 });
    assert_eq!(s.step(CycleEvent::LoopFailed), Action::Retry { delay_ms: 250 });
}

#[test]
fn successful_reconnect_does_not_reset_the_counter() {
    let mut s = Supervisor::new(&settings(false, 60000));
    assert_eq!(s.step(CycleEvent::LoopFailed), Action::Retry { delay_ms: 100 });
    assert_eq!(s.step(CycleEvent::Connected), Action::RunLoop);
    assert_eq!(s.retries, 1);
    // The failure after the success continues at 200ms, not back at 100ms.
    assert_eq!(s.step(CycleEvent::LoopFailed), Action::Retry { delay_ms: 200 });
    assert_eq!(s.retries, 2);
}

#[test]
fn connect_io_fault_is_retried_like_a_loop_failure() {
    let mut s = Supervisor::new(&settings(false, 60000));
    assert_eq!(s.step(CycleEvent::ConnectFailedIo), Action::Retry { delay_ms: 100 });
    assert!(!s.ready);
    assert_eq!(s.retries, 1);
}

#[test]
fn no_reconnect_exits_after_one_transient_failure() {
    let mut s = Supervisor::new(&settings(true, 60000));
    assert_eq!(s.step(CycleEvent::Connected), Action::RunLoop);
    assert_eq!(s.step(CycleEvent::LoopFailed), Action::ExitSuccess);
    assert!(!s.ready);
    assert_eq!(s.retries, 0);
}

#[test]
fn no_reconnect_exits_on_a_transient_connect_fault_too() {
    let mut s = Supervisor::new(&settings(true, 60000));
    assert_eq!(s.step(CycleEvent::ConnectFailedIo), Action::ExitSuccess);
}

#[test]
fn fatal_outcomes_crash() {
    let mut s = Supervisor::new(&settings(false, 60000));
    assert_eq!(s.step(CycleEvent::BindFailed), Action::Crash);
    assert_eq!(s.step(CycleEvent::ConnectFailedOther), Action::Crash);
    // A crash retries nothing: the counter is untouched.
    assert_eq!(s.retries, 0);
    // Fatal stays fatal even with reconnecting disabled.
    let mut t = Supervisor::new(&settings(true, 60000));
    assert_eq!(t.step(CycleEvent::ConnectFailedOther), Action::Crash);
}
