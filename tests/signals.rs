use ftr::lifecycle::{Action, Controller, Event, LifecycleState};
use ftr::signals::{classify_signal, control_signals, deliver_signal, ControlRequest};

fn running() -> Controller {
    let mut c = Controller::new();
    c.step(Event::ConfigLoaded(Ok(())));
    c.step(Event::LoggerReady(Ok(())));
    c.step(Event::ServiceStarted(0, Ok(())));
    assert_eq!(c.state(), LifecycleState::Running);
    c
}

#[test]
fn registered_signals() {
    assert_eq!(control_signals(), vec![15, 2, 3, 1]);
}

#[test]
fn termination_signals_request_shutdown() {
    for s in [2, 3, 15] {
        assert_eq!(classify_signal(s), Ok(ControlRequest::Shutdown));
    }
}

#[test]
fn hangup_requests_reload() {
    assert_eq!(classify_signal(1), Ok(ControlRequest::Reload));
}

#[test]
fn other_signal_is_unrecognized() {
    match classify_signal(10) {
        Err(u) => assert_eq!(u.signal, 10),
        other => panic!("unexpected {:?}", other),
    }
}

#[test]
fn delivered_hangup_starts_reload() {
    let mut c = running();
    assert!(matches!(deliver_signal(&mut c, 1), Ok(Action::LoadConfig)));
    assert_eq!(c.state(), LifecycleState::Reloading);
}

#[test]
fn delivered_terminate_starts_shutdown() {
    let mut c = running();
    assert!(matches!(deliver_signal(&mut c, 15), Ok(Action::StopService(0))));
    assert_eq!(c.state(), LifecycleState::ShuttingDown);
}

#[test]
fn delivered_unknown_signal_changes_nothing() {
    let mut c = running();
    assert!(deliver_signal(&mut c, 12).is_err());
    assert_eq!(c.state(), LifecycleState::Running);
    assert_eq!(c.live_generation(), Some(0));
}
