use eval_worker::classify::{failure_payload, map_error_to_status, RunnerError};
use eval_worker::consumer::{
    decide_poll, JobAction, JobEvent, JobPhase, JobRun, JobSpec, PollDecision, PollResult,
    IDLE_SLEEP_SECONDS, POLL_WAIT_SECONDS,
};
use eval_worker::eval::{EvalEngine, EvalErrorKind, EvalErrorPayload, RunStatus};
use eval_worker::harness::{after_exit, HarnessStep};

const RUN: u128 = 0x6f1c_2a3b_4c5d_4e6f_8a9b_0c1d_2e3f_4a5b;

fn started(engine: EvalEngine) -> JobRun {
    let (run, first) = JobRun::start(JobSpec { run_id: RUN, engine });
    match first {
        JobAction::WriteStatus { run_id, status, error } => {
            assert_eq!(run_id, RUN);
            assert_eq!(status, RunStatus::Running);
            assert!(error.is_none());
        }
        other => panic!("unexpected first action {:?}", other),
    }
    run
}

fn expect_write(act: JobAction) -> (RunStatus, Option<EvalErrorPayload>) {
    match act {
        JobAction::WriteStatus { run_id, status, error } => {
            assert_eq!(run_id, RUN);
            (status, error)
        }
        other => panic!("expected a status write, got {:?}", other),
    }
}

fn failed_with(err: RunnerError) -> (RunStatus, EvalErrorPayload) {
    let mut run = started(EvalEngine::LmEvalHarness);
    assert!(matches!(run.step(JobEvent::StatusWritten), JobAction::Execute { run_id: RUN }));
    let (status, error) = expect_write(run.step(JobEvent::Executed { outcome: Err(err) }));
    assert_eq!(run.phase, JobPhase::Finishing { status });
    assert!(matches!(run.step(JobEvent::StatusWritten), JobAction::Finish));
    assert!(run.is_done());
    (status, error.unwrap())
}

#[test]
fn unsupported_engine_fails_with_engine_error() {
    let mut run = started(EvalEngine::Helm);
    let (status, error) = expect_write(run.step(JobEvent::StatusWritten));
    assert_eq!(status, RunStatus::FailedEngine);
    let e = error.unwrap();
    assert_eq!(e.kind, EvalErrorKind::Engine);
    assert_eq!(e.message, "Engine not supported");
    assert_eq!(e.engine.as_deref(), Some("Helm"));
    assert!(matches!(run.step(JobEvent::StatusWritten), JobAction::Finish));
    assert!(run.is_done());
}

#[test]
fn failed_process_without_error_file_reports_stderr() {
    let err = match after_exit(false, false, false, "OOM") {
        HarnessStep::Fail(e) => e,
        other => panic!("unexpected step {:?}", other),
    };
    let (status, e) = failed_with(err);
    assert_eq!(status, RunStatus::FailedInfra);
    assert_eq!(e.kind, EvalErrorKind::Infra);
    assert!(e.message.contains("OOM"));
    assert_eq!(e.message, "lm-eval harness failed: OOM");
    assert_eq!(e.engine.as_deref(), Some("lm_eval_harness"));
}

#[test]
fn successful_process_without_result_file_is_infra_failure() {
    let err = match after_exit(true, false, true, "") {
        HarnessStep::Fail(e) => e,
        other => panic!("unexpected step {:?}", other),
    };
    let (status, e) = failed_with(err);
    assert_eq!(status, RunStatus::FailedInfra);
    assert_eq!(e.message, "result.json missing");
}

#[test]
fn malformed_payload_touches_no_run() {
    assert!(matches!(decide_poll(PollResult::Malformed), PollDecision::Discard));
}

#[test]
fn empty_poll_sleeps_then_polls() {
    match decide_poll(PollResult::Empty) {
        PollDecision::Sleep { seconds } => assert_eq!(seconds, IDLE_SLEEP_SECONDS),
        other => panic!("unexpected decision {:?}", other),
    }
    assert_eq!(IDLE_SLEEP_SECONDS, 1);
    assert_eq!(POLL_WAIT_SECONDS, 5);
}

#[test]
fn received_job_is_marked_running_first() {
    let job = JobSpec { run_id: RUN, engine: EvalEngine::LmEvalHarness };
    match decide_poll(PollResult::Received(job)) {
        PollDecision::Start { run, first } => {
            assert_eq!(run.job, job);
            assert_eq!(run.phase, JobPhase::MarkingRunning);
            assert_eq!(expect_write(first).0, RunStatus::Running);
        }
        other => panic!("unexpected decision {:?}", other),
    }
}

#[test]
fn successful_run_completes() {
    let mut run = started(EvalEngine::LmEvalHarness);
    let mut written = vec![RunStatus::Running];
    assert!(matches!(run.step(JobEvent::StatusWritten), JobAction::Execute { run_id: RUN }));
    assert!(matches!(
        run.step(JobEvent::Executed { outcome: Ok(()) }),
        JobAction::Persist { run_id: RUN }
    ));
    let (status, error) = expect_write(run.step(JobEvent::Persisted));
    assert!(error.is_none());
    written.push(status);
    assert!(matches!(run.step(JobEvent::StatusWritten), JobAction::Finish));
    assert_eq!(written, vec![RunStatus::Running, RunStatus::Completed]);
    assert!(written.iter().all(|s| *s != RunStatus::Queued));
}

#[test]
fn storage_failure_after_success_is_infra_failure() {
    let mut run = started(EvalEngine::LmEvalHarness);
    run.step(JobEvent::StatusWritten);
    run.step(JobEvent::Executed { outcome: Ok(()) });
    let (status, error) =
        expect_write(run.step(JobEvent::PersistFailed { message: "bucket gone".to_string() }));
    assert_eq!(status, RunStatus::FailedInfra);
    let e = error.unwrap();
    assert_eq!(e.kind, EvalErrorKind::Infra);
    assert_eq!(e.message, "bucket gone");
    assert!(e.engine.is_none());
}

#[test]
fn engine_payload_is_kept_verbatim() {
    let own = EvalErrorPayload {
        kind: EvalErrorKind::Timeout,
        message: "took too long".to_string(),
        code: Some("T1".to_string()),
        engine: Some("harness".to_string()),
        details: None,
    };
    let (status, e) = failed_with(RunnerError::Eval(own));
    assert_eq!(status, RunStatus::TimedOut);
    assert_eq!(e.kind, EvalErrorKind::Timeout);
    assert_eq!(e.message, "took too long");
    assert_eq!(e.code.as_deref(), Some("T1"));
    assert_eq!(e.engine.as_deref(), Some("harness"));
}

#[test]
fn failed_running_write_ends_job_without_executing() {
    let mut run = started(EvalEngine::LmEvalHarness);
    assert!(matches!(run.step(JobEvent::StatusWriteFailed), JobAction::Finish));
    assert!(run.is_done());
    assert!(matches!(run.step(JobEvent::StatusWritten), JobAction::Wait));
}

#[test]
fn unexpected_event_is_ignored() {
    let mut run = started(EvalEngine::LmEvalHarness);
    assert!(matches!(run.step(JobEvent::Persisted), JobAction::Wait));
    assert_eq!(run.phase, JobPhase::MarkingRunning);
}

#[test]
fn error_kinds_map_to_statuses() {
    assert_eq!(map_error_to_status(EvalErrorKind::Config), RunStatus::FailedConfig);
    assert_eq!(map_error_to_status(EvalErrorKind::Engine), RunStatus::FailedEngine);
    assert_eq!(map_error_to_status(EvalErrorKind::Infra), RunStatus::FailedInfra);
    assert_eq!(map_error_to_status(EvalErrorKind::Timeout), RunStatus::TimedOut);
    assert_eq!(map_error_to_status(EvalErrorKind::Cancelled), RunStatus::Cancelled);
    assert_eq!(map_error_to_status(EvalErrorKind::Unknown), RunStatus::FailedInfra);
}

#[test]
fn io_failure_payload() {
    let p = failure_payload(RunnerError::Io("disk full".to_string()), EvalEngine::OpenCompass);
    assert_eq!(p.kind, EvalErrorKind::Infra);
    assert_eq!(p.message, "disk full");
    assert_eq!(p.engine.as_deref(), Some("lm_eval_harness"));
    assert!(p.code.is_none() && p.details.is_none());
    let q = failure_payload(RunnerError::NotSupported, EvalEngine::OpenAiEvals);
    assert_eq!(q.engine.as_deref(), Some("OpenAiEvals"));
}
