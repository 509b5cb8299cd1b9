use tache::env::ExecEnv;
use tache::outcome::{decide, Config, Decision, RaceResult, ServiceError, ServiceOutcome};
use tache::supervisor::{launch_server, resolve_race, Supervisor};

#[test]
fn shutdown_first_returns_success() {
    let (decision, supervisor) = launch_server(&Config::new(), RaceResult::ShutdownRequested);
    assert!(matches!(decision, Decision::ExitCleanly));
    assert!(supervisor.is_terminated());
    assert_eq!(supervisor.running_units(), 0);
    assert!(supervisor.has_shut_down());
}

#[test]
fn bind_failure_is_reported_unmodified() {
    let error = ServiceError::new(String::from("bind address in use"));
    let winner = RaceResult::ServiceFinished(ServiceOutcome::Failure(error));
    let (decision, supervisor) = launch_server(&Config::new(), winner);
    match decision {
        Decision::ReportFailure(e) => assert_eq!(e.message, "bind address in use"),
        _ => panic!("a service failure must be reported as the run's outcome"),
    }
    assert_eq!(supervisor.running_units(), 0);
    assert!(supervisor.has_shut_down());
}

#[test]
fn anomalous_success_demands_abort() {
    let winner = RaceResult::ServiceFinished(ServiceOutcome::Success);
    let (decision, supervisor) = launch_server(&Config::new(), winner);
    assert!(matches!(decision, Decision::Abort));
    assert!(!matches!(decision, Decision::ReportFailure(_)));
    assert!(supervisor.is_terminated());
}

#[test]
fn tie_break_checks_service_first() {
    for _ in 0..3 {
        let outcome = ServiceOutcome::Failure(ServiceError::new(String::from("fatal i/o error")));
        match resolve_race(Some(outcome), true) {
            Some(RaceResult::ServiceFinished(ServiceOutcome::Failure(e))) => {
                assert_eq!(e.message, "fatal i/o error")
            }
            _ => panic!("with both sides ready the service task is checked first"),
        }
    }
}

#[test]
fn tie_break_holds_for_anomalous_success_too() {
    match resolve_race(Some(ServiceOutcome::Success), true) {
        Some(RaceResult::ServiceFinished(ServiceOutcome::Success)) => {}
        _ => panic!("with both sides ready the service task is checked first"),
    }
}

#[test]
fn race_still_pending_without_either_side() {
    assert!(matches!(resolve_race(None, false), None));
}

#[test]
fn shutdown_alone_wins_race() {
    assert!(matches!(resolve_race(None, true), Some(RaceResult::ShutdownRequested)));
}

#[test]
fn service_failure_alone_wins_race() {
    let outcome = ServiceOutcome::Failure(ServiceError::new(String::from("bind address in use")));
    match resolve_race(Some(outcome), false) {
        Some(RaceResult::ServiceFinished(ServiceOutcome::Failure(e))) => {
            assert_eq!(e.message, "bind address in use")
        }
        _ => panic!("a completed service task wins the race outright"),
    }
}

#[test]
fn environment_teardown_is_idempotent() {
    let mut env = ExecEnv::acquire();
    env.spawn_unit();
    env.spawn_unit();
    assert_eq!(env.running_units(), 2);
    env.shutdown_now();
    assert_eq!(env.running_units(), 0);
    assert!(env.has_shut_down());
    env.shutdown_now();
    assert_eq!(env.running_units(), 0);
    assert!(env.has_shut_down());
}

#[test]
fn supervisor_walks_the_state_machine() {
    let mut supervisor = Supervisor::new();
    assert!(!supervisor.is_terminated());
    assert_eq!(supervisor.running_units(), 0);
    supervisor.start(&Config::new());
    assert_eq!(supervisor.running_units(), 2);
    assert!(!supervisor.has_shut_down());
    supervisor.observe(&RaceResult::ShutdownRequested);
    assert_eq!(supervisor.running_units(), 1);
    assert!(!supervisor.is_terminated());
    supervisor.teardown();
    assert!(supervisor.is_terminated());
    assert_eq!(supervisor.running_units(), 0);
    assert!(supervisor.has_shut_down());
}

#[test]
fn decide_preserves_error_content() {
    let error = ServiceError::new(String::from("configuration rejected at runtime"));
    let decision = decide(RaceResult::ServiceFinished(ServiceOutcome::Failure(error)));
    match decision {
        Decision::ReportFailure(e) => assert_eq!(e.message, "configuration rejected at runtime"),
        _ => panic!("the failure path must carry the original error"),
    }
}

#[test]
fn decide_maps_shutdown_to_clean_exit() {
    assert!(matches!(decide(RaceResult::ShutdownRequested), Decision::ExitCleanly));
}
