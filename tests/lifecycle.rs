use ftr::lifecycle::{
    exit_code, Action, ConfigError, Controller, Event, LifecycleError, LifecycleState,
    LoggerError, StartError,
};

fn running() -> Controller {
    let mut c = Controller::new();
    assert!(matches!(c.first_action(), Action::LoadConfig));
    assert!(matches!(c.step(Event::ConfigLoaded(Ok(()))), Action::InitLogger));
    assert!(matches!(c.step(Event::LoggerReady(Ok(()))), Action::StartService(0)));
    assert!(matches!(c.step(Event::ServiceStarted(0, Ok(()))), Action::Idle));
    c
}

#[test]
fn startup_runs_in_order() {
    let c = running();
    assert_eq!(c.state(), LifecycleState::Running);
    assert_eq!(c.live_generation(), Some(0));
    assert_eq!(exit_code(c.state()), None);
}

#[test]
fn startup_events_out_of_order_are_ignored() {
    let mut c = Controller::new();
    assert!(matches!(c.step(Event::LoggerReady(Ok(()))), Action::Idle));
    assert!(matches!(c.step(Event::ServiceStarted(0, Ok(()))), Action::Idle));
    assert_eq!(c.state(), LifecycleState::Starting);
}

#[test]
fn missing_config_fails_startup() {
    let mut c = Controller::new();
    let a = c.step(Event::ConfigLoaded(Err(ConfigError::NotFound)));
    assert!(matches!(a, Action::Abort(LifecycleError::Config(ConfigError::NotFound), None)));
    assert_eq!(c.state(), LifecycleState::Failed);
    assert_eq!(exit_code(c.state()), Some(1));
    assert!(c.is_terminal());
    assert!(matches!(c.step(Event::LoggerReady(Ok(()))), Action::Idle));
}

#[test]
fn logger_failure_stops_startup() {
    let mut c = Controller::new();
    c.step(Event::ConfigLoaded(Ok(())));
    let a = c.step(Event::LoggerReady(Err(LoggerError::IoFailure)));
    assert!(matches!(a, Action::Abort(LifecycleError::Logger(LoggerError::IoFailure), None)));
    assert_eq!(c.state(), LifecycleState::Failed);
}

#[test]
fn service_failure_stops_startup() {
    let mut c = Controller::new();
    c.step(Event::ConfigLoaded(Ok(())));
    c.step(Event::LoggerReady(Ok(())));
    let a = c.step(Event::ServiceStarted(0, Err(StartError::ResourceUnavailable)));
    assert!(matches!(
        a,
        Action::Abort(LifecycleError::Start(StartError::ResourceUnavailable), None)
    ));
    assert_eq!(c.state(), LifecycleState::Failed);
    assert_eq!(c.live_generation(), None);
}

#[test]
fn valid_reload_swaps_generation() {
    let mut c = running();
    assert!(matches!(c.step(Event::ReloadRequested), Action::LoadConfig));
    assert_eq!(c.state(), LifecycleState::Reloading);
    assert!(matches!(c.step(Event::ConfigLoaded(Ok(()))), Action::StartService(1)));
    assert_eq!(c.live_generation(), Some(0));
    assert!(matches!(c.step(Event::ServiceStarted(1, Ok(()))), Action::StopService(0)));
    assert_eq!(c.state(), LifecycleState::Running);
    assert_eq!(c.live_generation(), Some(1));
    assert_eq!(c.pending_generation(), None);
}

#[test]
fn invalid_reload_keeps_old_generation() {
    let mut c = running();
    c.step(Event::ReloadRequested);
    let a = c.step(Event::ConfigLoaded(Err(ConfigError::Invalid("line 3".to_string()))));
    match a {
        Action::ReportReloadFailure(LifecycleError::Config(ConfigError::Invalid(r))) => {
            assert_eq!(r, "line 3")
        }
        other => panic!("unexpected {:?}", other),
    }
    assert_eq!(c.state(), LifecycleState::Running);
    assert_eq!(c.live_generation(), Some(0));
}

#[test]
fn failed_new_generation_keeps_old_one() {
    let mut c = running();
    c.step(Event::ReloadRequested);
    c.step(Event::ConfigLoaded(Ok(())));
    let a = c.step(Event::ServiceStarted(1, Err(StartError::InvalidConfig)));
    assert!(matches!(
        a,
        Action::ReportReloadFailure(LifecycleError::Start(StartError::InvalidConfig))
    ));
    assert_eq!(c.state(), LifecycleState::Running);
    assert_eq!(c.live_generation(), Some(0));
}

#[test]
fn shutdown_then_reload_reaches_stopped() {
    let mut c = running();
    assert!(matches!(c.step(Event::ShutdownRequested), Action::StopService(0)));
    assert_eq!(c.state(), LifecycleState::ShuttingDown);
    assert!(matches!(c.step(Event::ReloadRequested), Action::Idle));
    assert!(matches!(c.step(Event::ServiceStopped), Action::Exit));
    assert_eq!(c.state(), LifecycleState::Stopped);
    assert_eq!(exit_code(c.state()), Some(0));
}

#[test]
fn reload_then_shutdown_reaches_stopped() {
    let mut c = running();
    c.step(Event::ReloadRequested);
    assert!(matches!(c.step(Event::ShutdownRequested), Action::StopService(0)));
    assert!(matches!(c.step(Event::ConfigLoaded(Ok(()))), Action::Idle));
    assert!(matches!(c.step(Event::ServiceStopped), Action::Exit));
    assert_eq!(c.state(), LifecycleState::Stopped);
}

#[test]
fn shutdown_abandons_new_generation() {
    let mut c = running();
    c.step(Event::ReloadRequested);
    c.step(Event::ConfigLoaded(Ok(())));
    c.step(Event::ShutdownRequested);
    assert!(matches!(c.step(Event::ServiceStarted(1, Ok(()))), Action::StopService(1)));
    assert_eq!(c.live_generation(), None);
    assert!(matches!(c.step(Event::ServiceStopped), Action::Idle));
    assert!(matches!(c.step(Event::ServiceStopped), Action::Exit));
    assert_eq!(c.state(), LifecycleState::Stopped);
}

#[test]
fn shutdown_after_failed_new_generation() {
    let mut c = running();
    c.step(Event::ReloadRequested);
    c.step(Event::ConfigLoaded(Ok(())));
    c.step(Event::ShutdownRequested);
    assert!(matches!(c.step(Event::ServiceStopped), Action::Idle));
    let a = c.step(Event::ServiceStarted(1, Err(StartError::ResourceUnavailable)));
    assert!(matches!(a, Action::Exit));
    assert_eq!(c.state(), LifecycleState::Stopped);
}

#[test]
fn lost_logger_fails_running_daemon() {
    let mut c = running();
    let a = c.step(Event::LoggerLost);
    assert!(matches!(a, Action::Abort(LifecycleError::LoggerLost, Some(0))));
    assert_eq!(c.state(), LifecycleState::Failed);
}

#[test]
fn lost_logger_does_not_stop_shutdown() {
    let mut c = running();
    c.step(Event::ShutdownRequested);
    assert!(matches!(c.step(Event::LoggerLost), Action::Idle));
    assert!(matches!(c.step(Event::ServiceStopped), Action::Exit));
}

#[test]
fn hangup_with_broken_config_keeps_serving() {
    let mut c = running();
    assert!(matches!(
        ftr::signals::deliver_signal(&mut c, 1),
        Ok(Action::LoadConfig)
    ));
    let a = c.step(Event::ConfigLoaded(Err(ConfigError::Invalid("syntax".to_string()))));
    assert!(matches!(a, Action::ReportReloadFailure(_)));
    assert_eq!(c.state(), LifecycleState::Running);
    assert_eq!(c.live_generation(), Some(0));
}
