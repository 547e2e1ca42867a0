//! Classification of evaluation failures into error payloads and terminal
//! run statuses.
use vstd::prelude::*;
use vstd::string::*;

use crate::eval::{EvalEngine, EvalErrorKind, EvalErrorPayload, RunStatus};

verus! {

/// How an evaluation adapter can fail.
#[derive(Clone, Debug)]
pub enum RunnerError {
    /// The engine reported a structured failure of its own.
    Eval(EvalErrorPayload),
    /// The process, its files or its transport failed; holds the message.
    Io(String),
    /// No adapter exists for the selected engine.
    NotSupported,
}

/// The name under which an engine is reported.
pub open spec fn engine_name_text(e: EvalEngine) -> Seq<char> {
    match e {
        EvalEngine::LmEvalHarness => "LmEvalHarness"@,
        EvalEngine::OpenCompass => "OpenCompass"@,
        EvalEngine::Helm => "Helm"@,
        EvalEngine::DeepEval => "DeepEval"@,
        EvalEngine::OpenAiEvals => "OpenAiEvals"@,
    }
}

/// The engine name recorded for failures of the harness process.
pub open spec fn harness_engine_text() -> Seq<char> {
    "lm_eval_harness"@
}

/// The message recorded when no adapter exists for an engine.
pub open spec fn not_supported_text() -> Seq<char> {
    "Engine not supported"@
}

/// The error kind that a failure is classified as.
pub open spec fn failure_kind(err: RunnerError) -> EvalErrorKind {
    match err {
        RunnerError::Eval(p) => p.kind,
        RunnerError::Io(_) => EvalErrorKind::Infra,
        RunnerError::NotSupported => EvalErrorKind::Engine,
    }
}

/// `p` is the payload recorded for `err` on a run of `engine`: an engine's own
/// payload is kept as it is; the others are built from the failure.
pub open spec fn is_failure_payload(err: RunnerError, engine: EvalEngine, p: EvalErrorPayload) -> bool {
    match err {
        RunnerError::Eval(q) => p == q,
        RunnerError::Io(msg) => {
            &&& p.kind == EvalErrorKind::Infra
            &&& p.message == msg
            &&& p.code is None
            &&& p.engine matches Some(n) && n@ == harness_engine_text()
            &&& p.details is None
        },
        RunnerError::NotSupported => {
            &&& p.kind == EvalErrorKind::Engine
            &&& p.message@ == not_supported_text()
            &&& p.code is None
            &&& p.engine matches Some(n) && n@ == engine_name_text(engine)
            &&& p.details is None
        },
    }
}

/// The terminal status that a failure of each kind leads to.
pub open spec fn status_for_kind(kind: EvalErrorKind) -> RunStatus {
    match kind {
        EvalErrorKind::Config => RunStatus::FailedConfig,
        EvalErrorKind::Engine => RunStatus::FailedEngine,
        EvalErrorKind::Infra => RunStatus::FailedInfra,
        EvalErrorKind::Timeout => RunStatus::TimedOut,
        EvalErrorKind::Cancelled => RunStatus::Cancelled,
        EvalErrorKind::Unknown => RunStatus::FailedInfra,
    }
}

pub fn engine_name(engine: EvalEngine) -> (r: &'static str)
    ensures
        r@ == engine_name_text(engine),
{
    match engine {
        EvalEngine::LmEvalHarness => "LmEvalHarness",
        EvalEngine::OpenCompass => "OpenCompass",
        EvalEngine::Helm => "Helm",
        EvalEngine::DeepEval => "DeepEval",
        EvalEngine::OpenAiEvals => "OpenAiEvals",
    }
}

pub fn map_error_to_status(kind: EvalErrorKind) -> (r: RunStatus)
    ensures
        r == status_for_kind(kind),
        r.spec_is_failure(),
{
    match kind {
        EvalErrorKind::Config => RunStatus::FailedConfig,
        EvalErrorKind::Engine => RunStatus::FailedEngine,
        EvalErrorKind::Infra => RunStatus::FailedInfra,
        EvalErrorKind::Timeout => RunStatus::TimedOut,
        EvalErrorKind::Cancelled => RunStatus::Cancelled,
        EvalErrorKind::Unknown => RunStatus::FailedInfra,
    }
}

/// The payload recorded for a failed evaluation of `engine`.
pub fn failure_payload(err: RunnerError, engine: EvalEngine) -> (p: EvalErrorPayload)
    ensures
        is_failure_payload(err, engine, p),
        p.kind == failure_kind(err),
{
    match err {
        RunnerError::Eval(payload) => payload,
        RunnerError::Io(message) => EvalErrorPayload {
            kind: EvalErrorKind::Infra,
            message,
            code: None,
            engine: Some(String::from_str("lm_eval_harness")),
            details: None,
        },
        RunnerError::NotSupported => EvalErrorPayload {
            kind: EvalErrorKind::Engine,
            message: String::from_str("Engine not supported"),
            code: None,
            engine: Some(String::from_str(engine_name(engine))),
            details: None,
        },
    }
}

} // verus!
