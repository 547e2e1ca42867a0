use eval_worker::eval::{EvalErrorKind, EvalErrorPayload, RunStatus};
use eval_worker::status::{
    error_kind_from_str, error_kind_to_str, run_state_from_row, status_from_str, status_to_str,
    status_update, ErrorColumns, RunState, StatusRow,
};

const ALL_STATUSES: [RunStatus; 8] = [
    RunStatus::Queued,
    RunStatus::Running,
    RunStatus::Completed,
    RunStatus::FailedConfig,
    RunStatus::FailedEngine,
    RunStatus::FailedInfra,
    RunStatus::TimedOut,
    RunStatus::Cancelled,
];

fn payload(kind: EvalErrorKind, message: &str) -> EvalErrorPayload {
    EvalErrorPayload {
        kind,
        message: message.to_string(),
        code: Some("E42".to_string()),
        engine: Some("lm_eval_harness".to_string()),
        details: Some("{\"gpu\":0}".to_string()),
    }
}

#[test]
fn status_column_text() {
    assert_eq!(status_to_str(RunStatus::Queued), "queued");
    assert_eq!(status_to_str(RunStatus::FailedConfig), "failed_config");
    assert_eq!(status_to_str(RunStatus::TimedOut), "timed_out");
    assert_eq!(status_to_str(RunStatus::Cancelled), "cancelled");
}

#[test]
fn status_text_reads_back() {
    for s in ALL_STATUSES {
        assert_eq!(status_from_str(status_to_str(s)), s);
    }
}

#[test]
fn unknown_status_text_reads_as_queued() {
    assert_eq!(status_from_str("paused"), RunStatus::Queued);
    assert_eq!(status_from_str(""), RunStatus::Queued);
    assert_eq!(status_from_str("Running"), RunStatus::Queued);
}

#[test]
fn error_kind_text_reads_back() {
    let kinds = [
        EvalErrorKind::Config,
        EvalErrorKind::Engine,
        EvalErrorKind::Infra,
        EvalErrorKind::Timeout,
        EvalErrorKind::Cancelled,
        EvalErrorKind::Unknown,
    ];
    for k in kinds {
        assert_eq!(error_kind_from_str(error_kind_to_str(k)), k);
    }
    assert_eq!(error_kind_to_str(EvalErrorKind::Timeout), "timeout");
    assert_eq!(error_kind_from_str("oom"), EvalErrorKind::Unknown);
}

#[test]
fn terminal_statuses() {
    assert!(!RunStatus::Queued.is_terminal());
    assert!(!RunStatus::Running.is_terminal());
    assert!(RunStatus::Completed.is_terminal());
    assert!(RunStatus::FailedInfra.is_terminal());
    assert!(RunStatus::Cancelled.is_terminal());
}

#[test]
fn repeated_terminal_transition_changes_nothing() {
    let mut once = RunState::new(RunStatus::Running);
    once.transition(RunStatus::FailedEngine, Some(payload(EvalErrorKind::Engine, "bad")));
    let mut twice = once.clone();
    twice.transition(RunStatus::FailedEngine, Some(payload(EvalErrorKind::Engine, "bad")));
    assert_eq!(twice.status, once.status);
    let (a, b) = (twice.error.unwrap(), once.error.unwrap());
    assert_eq!(a.kind, b.kind);
    assert_eq!(a.message, b.message);
    assert_eq!(a.code, b.code);
    assert_eq!(a.engine, b.engine);
    assert_eq!(a.details, b.details);
}

#[test]
fn transition_without_error_keeps_stored_error() {
    let mut state = RunState::new(RunStatus::Running);
    state.transition(RunStatus::FailedInfra, Some(payload(EvalErrorKind::Infra, "disk")));
    state.transition(RunStatus::Completed, None);
    assert_eq!(state.status, RunStatus::Completed);
    let e = state.error.unwrap();
    assert_eq!(e.kind, EvalErrorKind::Infra);
    assert_eq!(e.message, "disk");
}

#[test]
fn transition_with_error_replaces_stored_error() {
    let mut state = RunState::new(RunStatus::Running);
    state.transition(RunStatus::FailedInfra, Some(payload(EvalErrorKind::Infra, "disk")));
    state.transition(RunStatus::TimedOut, Some(payload(EvalErrorKind::Timeout, "slow")));
    assert_eq!(state.status, RunStatus::TimedOut);
    assert_eq!(state.error.unwrap().message, "slow");
}

#[test]
fn update_without_error_leaves_error_columns() {
    let u = status_update(RunStatus::Running, None);
    assert_eq!(u.status, "running");
    assert!(u.error.is_none());
    let mut row = StatusRow {
        status: "failed_engine".to_string(),
        error: Some(ErrorColumns {
            kind: "engine".to_string(),
            code: None,
            message: Some("boom".to_string()),
            engine: None,
            details: None,
        }),
    };
    row.apply(u);
    assert_eq!(row.status, "running");
    let c = row.error.unwrap();
    assert_eq!(c.kind, "engine");
    assert_eq!(c.message.as_deref(), Some("boom"));
}

#[test]
fn update_with_error_holds_every_field() {
    let u = status_update(RunStatus::TimedOut, Some(payload(EvalErrorKind::Timeout, "slow")));
    assert_eq!(u.status, "timed_out");
    let c = u.error.unwrap();
    assert_eq!(c.kind, "timeout");
    assert_eq!(c.code.as_deref(), Some("E42"));
    assert_eq!(c.message.as_deref(), Some("slow"));
    assert_eq!(c.engine.as_deref(), Some("lm_eval_harness"));
    assert_eq!(c.details.as_deref(), Some("{\"gpu\":0}"));
}

#[test]
fn applying_an_update_twice_equals_once() {
    let u = status_update(RunStatus::Cancelled, Some(payload(EvalErrorKind::Cancelled, "stop")));
    let mut once = StatusRow { status: "running".to_string(), error: None };
    once.apply(u.clone());
    let mut twice = once.clone();
    twice.apply(u);
    assert_eq!(twice.status, once.status);
    let (a, b) = (twice.error.unwrap(), once.error.unwrap());
    assert_eq!(a.kind, b.kind);
    assert_eq!(a.message, b.message);
}

#[test]
fn row_reads_back_as_written() {
    let mut row = StatusRow { status: "running".to_string(), error: None };
    row.apply(status_update(RunStatus::Cancelled, Some(payload(EvalErrorKind::Cancelled, "stop"))));
    let state = run_state_from_row(row);
    assert_eq!(state.status, RunStatus::Cancelled);
    let e = state.error.unwrap();
    assert_eq!(e.kind, EvalErrorKind::Cancelled);
    assert_eq!(e.message, "stop");
    assert_eq!(e.code.as_deref(), Some("E42"));
}

#[test]
fn row_with_kind_but_no_message_reads_empty_message() {
    let row = StatusRow {
        status: "failed_infra".to_string(),
        error: Some(ErrorColumns {
            kind: "weird".to_string(),
            code: None,
            message: None,
            engine: None,
            details: None,
        }),
    };
    let state = run_state_from_row(row);
    assert_eq!(state.status, RunStatus::FailedInfra);
    let e = state.error.unwrap();
    assert_eq!(e.kind, EvalErrorKind::Unknown);
    assert_eq!(e.message, "");
}

#[test]
fn row_without_error_columns_reads_no_error() {
    let row = StatusRow { status: "completed".to_string(), error: None };
    let state = run_state_from_row(row);
    assert_eq!(state.status, RunStatus::Completed);
    assert!(state.error.is_none());
}
