use weatherbot::supervisor::SessionState;
use weatherbot::supervisor::Supervisor;
use weatherbot::supervisor::RECONNECT_DELAY_SECS;

#[test]
fn a_fresh_supervisor_is_disconnected() {
    let sup = Supervisor::new();
    assert_eq!(sup.current_state(), SessionState::Disconnected);
}

#[test]
fn establishment_walks_the_lifecycle() {
    let mut sup = Supervisor::new();
    sup.begin_attempt();
    assert_eq!(sup.current_state(), SessionState::Connecting);
    sup.on_established();
    assert_eq!(sup.current_state(), SessionState::Active);
    let delay = sup.on_stream_ended();
    assert_eq!(delay, RECONNECT_DELAY_SECS);
    assert_eq!(sup.current_state(), SessionState::Disconnected);
}

#[test]
fn repeated_failures_never_exhaust_the_supervisor() {
    let mut sup = Supervisor::new();
    for _ in 0..1000 {
        sup.begin_attempt();
        assert_eq!(sup.current_state(), SessionState::Connecting);
        let delay = sup.on_establish_failed();
        assert_eq!(delay, 5);
        assert_eq!(sup.current_state(), SessionState::Disconnected);
    }
    // after any run of failures the next attempt can still begin
    sup.begin_attempt();
    assert_eq!(sup.current_state(), SessionState::Connecting);
    sup.on_established();
    assert_eq!(sup.current_state(), SessionState::Active);
}

#[test]
fn a_read_error_keeps_the_session_alive() {
    let mut sup = Supervisor::new();
    sup.begin_attempt();
    sup.on_established();
    assert!(sup.on_read_error());
    assert_eq!(sup.current_state(), SessionState::Active);
}
