use std::time::Duration;

use pale::supervisor::{
    require_connected, require_disconnected, wait_step, AfterFailure, NextStep, Phase, SessionEnd,
    Supervisor, WaitStep,
};
use pale::{ClientConfig, PaleError};

fn supervisor(max: i32) -> Supervisor {
    let mut config = ClientConfig::default();
    config.max_retry_attempts = max;
    Supervisor::new(&config)
}

fn connect_ok(s: &mut Supervisor) -> bool {
    assert_eq!(s.next_step(), NextStep::Connect);
    s.on_connected()
}

fn connect_fail(s: &mut Supervisor) -> AfterFailure {
    assert_eq!(s.next_step(), NextStep::Connect);
    s.on_connect_failed()
}

/// Counts the attempts made while every one fails, until the loop shuts down.
fn attempts_until_shutdown(s: &mut Supervisor) -> i32 {
    let mut attempts = 0;
    loop {
        match s.next_step() {
            NextStep::Shutdown => return attempts,
            NextStep::Connect => {
                attempts += 1;
                match s.on_connect_failed() {
                    AfterFailure::Retry(delay) => assert_eq!(delay, Duration::from_secs(10)),
                    AfterFailure::GiveUp => {}
                }
                assert!(!s.connected());
            }
        }
    }
}

#[test]
fn gates() {
    assert!(require_connected(true).is_ok());
    assert!(matches!(require_connected(false), Err(PaleError::ClientDisconnected)));
    assert!(require_disconnected(false).is_ok());
    assert!(matches!(require_disconnected(true), Err(PaleError::ClientAlreadyConnected)));
}

#[test]
fn first_connection_is_not_announced_later_ones_are() {
    let mut s = supervisor(36);
    assert!(!s.connected());
    assert!(!connect_ok(&mut s));
    assert!(s.connected());
    assert_eq!(s.phase(), Phase::Serving);
    assert!(s.on_session_end(SessionEnd::ReaderFinished));
    assert!(connect_ok(&mut s));
}

#[test]
fn first_connection_after_failed_attempts_is_not_announced() {
    let mut s = supervisor(36);
    assert!(matches!(connect_fail(&mut s), AfterFailure::Retry(_)));
    assert!(matches!(connect_fail(&mut s), AfterFailure::Retry(_)));
    assert!(!s.connected());
    assert!(!connect_ok(&mut s));
    s.on_session_end(SessionEnd::WriterFinished);
    assert!(matches!(connect_fail(&mut s), AfterFailure::Retry(_)));
    assert!(connect_ok(&mut s));
}

#[test]
fn lost_connection_makes_at_most_max_attempts() {
    let mut s = supervisor(36);
    connect_ok(&mut s);
    assert!(s.on_session_end(SessionEnd::WriterFinished));
    assert!(!s.connected());
    assert_eq!(attempts_until_shutdown(&mut s), 36);
    assert!(!s.connected());
    assert_eq!(s.phase(), Phase::Stopped);
}

#[test]
fn max_one_gives_up_after_one_reconnection_attempt() {
    let mut s = supervisor(1);
    connect_ok(&mut s);
    s.on_session_end(SessionEnd::ReaderFinished);
    assert_eq!(connect_fail(&mut s), AfterFailure::GiveUp);
    assert_eq!(s.next_step(), NextStep::Shutdown);
}

#[test]
fn first_attempt_then_max_retries() {
    let mut s = supervisor(2);
    assert_eq!(attempts_until_shutdown(&mut s), 3);
}

#[test]
fn non_positive_max_makes_no_reconnection_attempt() {
    let mut s = supervisor(-5);
    assert_eq!(connect_fail(&mut s), AfterFailure::GiveUp);
    assert_eq!(s.next_step(), NextStep::Shutdown);
    assert!(!s.connected());

    let mut s = supervisor(0);
    connect_ok(&mut s);
    s.on_session_end(SessionEnd::ReaderFinished);
    assert!(!s.connected());
    assert_eq!(s.next_step(), NextStep::Shutdown);
}

#[test]
fn close_request_shuts_down() {
    let mut s = supervisor(36);
    connect_ok(&mut s);
    assert!(!s.on_session_end(SessionEnd::CloseWatcherFinished(Some(true))));
    assert!(!s.connected());
    assert_eq!(s.next_step(), NextStep::Shutdown);
    assert!(!s.connected());
    assert_eq!(s.phase(), Phase::Stopped);
}

#[test]
fn failed_or_ended_close_watcher_reconnects() {
    let mut s = supervisor(36);
    connect_ok(&mut s);
    assert!(s.on_session_end(SessionEnd::CloseWatcherFinished(None)));
    assert!(connect_ok(&mut s));
    assert!(s.on_session_end(SessionEnd::CloseWatcherFinished(Some(false))));
    assert_eq!(s.next_step(), NextStep::Connect);
}

#[test]
fn success_resets_the_reconnection_count() {
    let mut s = supervisor(36);
    connect_fail(&mut s);
    connect_fail(&mut s);
    connect_fail(&mut s);
    assert_eq!(s.reconnect_attempts(), 2);
    connect_ok(&mut s);
    assert_eq!(s.reconnect_attempts(), 0);
}

#[test]
fn waiting_for_a_connection_state() {
    assert_eq!(wait_step(true, true), WaitStep::Reached);
    assert_eq!(wait_step(false, false), WaitStep::Reached);
    assert_eq!(wait_step(false, true), WaitStep::Recheck { after_millis: 100 });
    assert_eq!(wait_step(true, false), WaitStep::Recheck { after_millis: 100 });
}
