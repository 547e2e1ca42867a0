//! The data shapes that flow through the worker: run status, error payloads,
//! output modes and per-sample records.
use vstd::prelude::*;

verus! {

/// The evaluation engines a run may select.
#[derive(Clone, Copy, Debug, PartialEq, Eq, Structural)]
pub enum EvalEngine {
    LmEvalHarness,
    OpenCompass,
    Helm,
    DeepEval,
    OpenAiEvals,
}

/// The kind of task a run evaluates.
#[derive(Clone, Copy, Debug, PartialEq, Eq, Structural)]
pub enum TaskType {
    Qa,
    Summarization,
    Rag,
    CodeGen,
    Classification,
    Custom,
}

/// Where the dataset of a run comes from.
#[derive(Clone, Copy, Debug, PartialEq, Eq, Structural)]
pub enum DatasetSource {
    BuiltIn,
    Uploaded,
    External,
}

/// Resource hints attached to a run configuration.
#[derive(Clone, Debug)]
pub struct ResourceConfig {
    pub priority: Option<u8>,
    pub num_gpus: Option<u8>,
    pub gpu_type: Option<String>,
    pub cpu_cores: Option<u8>,
    pub memory_gb: Option<u16>,
    pub timeout_seconds: Option<u64>,
}

/// Where the results of a run should be written.
#[derive(Clone, Debug)]
pub enum OutputConfig {
    DbOnly,
    ObjectStore { samples_uri: String, format: String },
    ClickHouse { table: String },
    Hybrid { ch_table: String, samples_uri: Option<String> },
}

/// Token usage of one sample.
#[derive(Clone, Copy, Debug, PartialEq, Eq, Structural)]
pub struct TokenCount {
    pub prompt_tokens: i32,
    pub completion_tokens: i32,
    pub total_tokens: i32,
}

/// A failure attached to one sample.
#[derive(Clone, Debug)]
pub struct SampleError {
    pub message: String,
    pub code: Option<String>,
}

/// One per-sample output of a run. Free-form JSON fields are held as their
/// JSON text.
#[derive(Clone, Debug)]
pub struct SampleRecord {
    pub run_id: u128,
    pub dataset: String,
    pub subset: Option<String>,
    pub split: Option<String>,
    pub sample_index: i64,
    pub input: String,
    pub reference: Option<String>,
    pub output: String,
    pub metrics: Option<String>,
    pub latency_ms: Option<i64>,
    pub token_counts: Option<TokenCount>,
    pub error: Option<SampleError>,
}

/// Where the samples of an evaluation result are: carried inline, or already
/// stored by the engine at some location.
#[derive(Clone, Debug)]
pub enum SampleResultLocation {
    Inline { samples: Vec<SampleRecord> },
    ObjectStore { uri: String, format: String },
    ClickHouse { table: String },
    Absent,
}

/// The classification of an evaluation failure.
#[derive(Clone, Copy, Debug, PartialEq, Eq, Structural)]
pub enum EvalErrorKind {
    Config,
    Engine,
    Infra,
    Timeout,
    Cancelled,
    Unknown,
}

/// A structured evaluation failure. `details` holds JSON text.
#[derive(Clone, Debug)]
pub struct EvalErrorPayload {
    pub kind: EvalErrorKind,
    pub message: String,
    pub code: Option<String>,
    pub engine: Option<String>,
    pub details: Option<String>,
}

/// The lifecycle status of a run.
#[derive(Clone, Copy, Debug, PartialEq, Eq, Structural)]
pub enum RunStatus {
    Queued,
    Running,
    Completed,
    FailedConfig,
    FailedEngine,
    FailedInfra,
    TimedOut,
    Cancelled,
}

impl RunStatus {
    /// A status from which no further transition occurs.
    pub open spec fn spec_is_terminal(self) -> bool {
        !(self is Queued || self is Running)
    }

    /// A terminal status that records a failure (anything but `Completed`).
    pub open spec fn spec_is_failure(self) -> bool {
        self.spec_is_terminal() && !(self is Completed)
    }

    #[verifier::when_used_as_spec(spec_is_terminal)]
    pub fn is_terminal(self) -> (r: bool)
        ensures
            r == self.spec_is_terminal(),
    {
        match self {
            RunStatus::Queued | RunStatus::Running => false,
            _ => true,
        }
    }
}

} // verus!
