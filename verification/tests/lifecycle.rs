use web_service_files::lifecycle::{Lifecycle, Phase, ShutdownSignal, SignalSource};

#[test]
fn test_shutdown_signal() {
    let mut s = ShutdownSignal::new();
    assert!(!s.fired());
    assert!(s.trigger(SignalSource::Interrupt));
    assert!(s.fired());
    // The second source loses the race and the signal is not re-armed.
    assert!(!s.trigger(SignalSource::Terminate));
    assert!(s.fired());
    assert!(!s.trigger(SignalSource::Interrupt));
}

#[test]
fn slow_request_completes_during_graceful_shutdown() {
    let mut lc = Lifecycle::new();
    assert_eq!(lc.current_phase(), Phase::Unbound);
    lc.on_bind(true);
    assert_eq!(lc.current_phase(), Phase::Serving);
    assert!(lc.accepting());

    lc.on_accept();
    assert_eq!(lc.in_flight_count(), 1);

    // The interrupt arrives while the request is still in flight: the server
    // stops accepting but the request is not cut short.
    lc.on_shutdown();
    assert_eq!(lc.current_phase(), Phase::Draining);
    assert!(!lc.accepting());
    assert_eq!(lc.in_flight_count(), 1);

    lc.on_request_done();
    assert_eq!(lc.in_flight_count(), 0);
    lc.on_drained();
    assert_eq!(lc.current_phase(), Phase::Stopped);
    assert!(lc.is_terminal());
}

#[test]
fn failed_bind_is_terminal_and_serves_nothing() {
    let mut lc = Lifecycle::new();
    lc.on_bind(false);
    assert_eq!(lc.current_phase(), Phase::Failed);
    assert!(lc.is_terminal());
    assert!(!lc.accepting());
    assert_eq!(lc.in_flight_count(), 0);
}

#[test]
fn later_shutdown_triggers_change_nothing() {
    let mut lc = Lifecycle::new();
    lc.on_bind(true);
    lc.on_shutdown();
    assert_eq!(lc.current_phase(), Phase::Draining);
    lc.on_shutdown();
    assert_eq!(lc.current_phase(), Phase::Draining);
    lc.on_drained();
    lc.on_shutdown();
    assert_eq!(lc.current_phase(), Phase::Stopped);
}
