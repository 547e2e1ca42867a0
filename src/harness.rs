//! The adapter for the evaluation harness, an external process. Each run has
//! a working directory `runs/<run id>` holding `config.json` for the process;
//! afterwards it holds `result.json` on success or `error.json` with the
//! process's own classification of a failure.
use vstd::prelude::*;
use vstd::string::*;

use crate::classify::RunnerError;
use crate::ids::{id_text, uuid_text};
use crate::settings::Settings;

verus! {

/// `name` placed under the directory `base`: an empty base adds nothing and a
/// base ending in `/` needs no further separator.
pub open spec fn join_path(base: Seq<char>, name: Seq<char>) -> Seq<char> {
    if base.len() == 0 {
        name
    } else if base.last() == '/' {
        base + name
    } else {
        base + seq!['/'] + name
    }
}

/// The working directory of a run.
pub open spec fn run_dir_text(run_id: u128) -> Seq<char> {
    "runs/"@ + uuid_text(run_id)
}

/// The text of the failure reported when the process failed without an error
/// file.
pub open spec fn stderr_failure_text(stderr: Seq<char>) -> Seq<char> {
    "lm-eval harness failed: "@ + stderr
}

pub fn join_path_text(base: &str, name: &str) -> (r: String)
    ensures
        r@ == join_path(base@, name@),
{
    let n = base.unicode_len();
    if n == 0 {
        String::from_str(name)
    } else if base.get_char(n - 1) == '/' {
        String::from_str(base).concat(name)
    } else {
        proof {
            reveal_strlit("/");
            assert("/"@ =~= seq!['/']);
        }
        String::from_str(base).concat("/").concat(name)
    }
}

/// The working directory of a run.
pub fn run_dir(run_id: u128) -> (r: String)
    ensures
        r@ == run_dir_text(run_id),
{
    String::from_str("runs/").concat(id_text(run_id).as_str())
}

/// The path of a file in a run's working directory.
pub fn run_file(run_id: u128, name: &str) -> (r: String)
    ensures
        r@ == join_path(run_dir_text(run_id), name@),
{
    let dir = run_dir(run_id);
    join_path_text(dir.as_str(), name)
}

/// The two files that the process may leave.
#[derive(Clone, Copy, Debug, PartialEq, Eq, Structural)]
pub enum Artifact {
    /// `result.json`, the evaluation result.
    Result,
    /// `error.json`, a structured failure.
    Error,
}

/// What to do once the process has exited.
#[derive(Debug)]
pub enum HarnessStep {
    /// Read and decode this artifact.
    Read(Artifact),
    /// The run failed.
    Fail(RunnerError),
}

pub open spec fn artifact_file_text(a: Artifact) -> Seq<char> {
    match a {
        Artifact::Result => "result.json"@,
        Artifact::Error => "error.json"@,
    }
}

/// The message of the failure reported when an artifact does not decode.
pub open spec fn undecodable_text(a: Artifact) -> Seq<char> {
    match a {
        Artifact::Result => "invalid eval result json"@,
        Artifact::Error => "invalid error payload"@,
    }
}

pub fn artifact_file(a: Artifact) -> (r: &'static str)
    ensures
        r@ == artifact_file_text(a),
{
    match a {
        Artifact::Result => "result.json",
        Artifact::Error => "error.json",
    }
}

/// Decides what follows the process's exit. A success must have left a
/// result file, and its absence is an infrastructure failure; a failure is
/// read from the error file when there is one, else reported with the
/// process's standard error.
pub fn after_exit(exit_success: bool, result_present: bool, error_present: bool, stderr: &str) -> (r: HarnessStep)
    ensures
        exit_success && result_present ==> r == HarnessStep::Read(Artifact::Result),
        exit_success && !result_present ==> (r matches HarnessStep::Fail(RunnerError::Io(m)) && m@ == "result.json missing"@),
        !exit_success && error_present ==> r == HarnessStep::Read(Artifact::Error),
        !exit_success && !error_present ==> (r matches HarnessStep::Fail(RunnerError::Io(m)) && m@ == stderr_failure_text(stderr@)),
{
    if exit_success {
        if result_present {
            HarnessStep::Read(Artifact::Result)
        } else {
            HarnessStep::Fail(RunnerError::Io(String::from_str("result.json missing")))
        }
    } else if error_present {
        HarnessStep::Read(Artifact::Error)
    } else {
        HarnessStep::Fail(RunnerError::Io(String::from_str("lm-eval harness failed: ").concat(stderr)))
    }
}

/// The failure reported when an artifact was read but does not decode.
pub fn undecodable(a: Artifact) -> (r: RunnerError)
    ensures
        r matches RunnerError::Io(m) && m@ == undecodable_text(a),
{
    match a {
        Artifact::Result => RunnerError::Io(String::from_str("invalid eval result json")),
        Artifact::Error => RunnerError::Io(String::from_str("invalid error payload")),
    }
}

/// The harness adapter: where the harness is installed.
#[derive(Clone, Debug)]
pub struct LmEvalRunner {
    pub harness_root: String,
}

impl LmEvalRunner {
    /// The harness lives in `lm-evaluation-harness` under the third-party root.
    pub fn new(settings: &Settings) -> (r: LmEvalRunner)
        ensures
            r.harness_root@ == join_path(
                settings.integrations.third_party_root@,
                "lm-evaluation-harness"@,
            ),
    {
        let root = join_path_text(
            settings.integrations.third_party_root.as_str(),
            "lm-evaluation-harness",
        );
        LmEvalRunner { harness_root: root }
    }
}

/// The engine adapters this worker has.
#[derive(Clone, Debug)]
pub struct Runners {
    pub lm_eval: LmEvalRunner,
}

impl Runners {
    pub fn new(settings: &Settings) -> (r: Runners)
        ensures
            r.lm_eval.harness_root@ == join_path(
                settings.integrations.third_party_root@,
                "lm-evaluation-harness"@,
            ),
    {
        Runners { lm_eval: LmEvalRunner::new(settings) }
    }
}

} // verus!
