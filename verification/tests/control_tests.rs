use sulog_poller::config::{resolve_poll_interval, DEFAULT_POLL_INTERVAL_SECS};
use sulog_poller::detach::{
    classify_fork, first_detach_action, intermediary_exit_code, second_detach_action,
    FirstDetachAction, ForkOutcome, SecondDetachAction,
};
use sulog_poller::diag::{severity_of, DiagEvent, Severity};
use sulog_poller::guard::RunGuard;
use sulog_poller::paths::{sulog_paths, LOG_DIR};

#[test]
fn guard_launches_exactly_once() {
    let mut guard = RunGuard::new();
    assert!(!guard.has_fired());
    let mut launches = 0;
    for _ in 0..10 {
        if guard.try_fire() {
            launches += 1;
        }
    }
    assert_eq!(launches, 1);
    assert!(guard.has_fired());
}

#[test]
fn interval_from_valid_override() {
    assert_eq!(resolve_poll_interval(Some(b"45")), 45);
    assert_eq!(resolve_poll_interval(Some(b"1")), 1);
    assert_eq!(resolve_poll_interval(Some(b"+7")), 7);
    assert_eq!(resolve_poll_interval(Some(b"0")), 0);
    assert_eq!(
        resolve_poll_interval(Some(b"18446744073709551615")),
        u64::MAX
    );
}

#[test]
fn interval_default_on_missing_or_invalid_override() {
    assert_eq!(resolve_poll_interval(None), 30);
    assert_eq!(DEFAULT_POLL_INTERVAL_SECS, 30);
    assert_eq!(resolve_poll_interval(Some(b"")), 30);
    assert_eq!(resolve_poll_interval(Some(b"+")), 30);
    assert_eq!(resolve_poll_interval(Some(b"abc")), 30);
    assert_eq!(resolve_poll_interval(Some(b"12x")), 30);
    assert_eq!(resolve_poll_interval(Some(b" 12")), 30);
    assert_eq!(resolve_poll_interval(Some(b"-5")), 30);
    assert_eq!(resolve_poll_interval(Some(b"++3")), 30);
    // one past u64::MAX, and far past it
    assert_eq!(resolve_poll_interval(Some(b"18446744073709551616")), 30);
    assert_eq!(resolve_poll_interval(Some(b"99999999999999999999999")), 30);
}

#[test]
fn first_detachment_failure_degrades_to_fallback_task() {
    let outcome = classify_fork(-1);
    assert_eq!(outcome, ForkOutcome::Failed);
    assert_eq!(
        first_detach_action(outcome),
        FirstDetachAction::SpawnFallbackTask
    );
}

#[test]
fn first_detachment_routes_child_and_parent() {
    assert_eq!(classify_fork(0), ForkOutcome::InChild);
    assert_eq!(
        first_detach_action(ForkOutcome::InChild),
        FirstDetachAction::ContinueDetaching
    );
    assert_eq!(classify_fork(12345), ForkOutcome::InParent);
    assert_eq!(
        first_detach_action(ForkOutcome::InParent),
        FirstDetachAction::ReturnToCaller
    );
}

#[test]
fn second_detachment_decides_who_runs_and_who_exits() {
    assert_eq!(
        second_detach_action(ForkOutcome::InChild),
        SecondDetachAction::RunPollLoop
    );
    assert_eq!(
        second_detach_action(ForkOutcome::InParent),
        SecondDetachAction::ExitSuccess
    );
    assert_eq!(
        second_detach_action(ForkOutcome::Failed),
        SecondDetachAction::ExitFailure
    );
    assert_eq!(intermediary_exit_code(SecondDetachAction::ExitSuccess), 0);
    assert_eq!(intermediary_exit_code(SecondDetachAction::ExitFailure), 1);
}

#[test]
fn severity_matches_error_taxonomy() {
    assert_eq!(severity_of(DiagEvent::FetchFailed), Severity::Low);
    assert_eq!(severity_of(DiagEvent::RotateFailed), Severity::Low);
    assert_eq!(severity_of(DiagEvent::PersistFailed), Severity::Low);
    assert_eq!(severity_of(DiagEvent::EnsureDirFailed), Severity::Elevated);
    assert_eq!(severity_of(DiagEvent::OpenFailed), Severity::Elevated);
    assert_eq!(severity_of(DiagEvent::WriteFailed), Severity::Elevated);
}

#[test]
fn paths_are_the_two_filenames_under_the_log_dir() {
    let (current, backup) = sulog_paths();
    assert_eq!(current, format!("{}/sulog.log", LOG_DIR));
    assert_eq!(backup, format!("{}/sulog.old.log", LOG_DIR));
    assert_eq!(current, "/data/adb/ksu/log/sulog.log");
    assert_eq!(backup, "/data/adb/ksu/log/sulog.old.log");
}
