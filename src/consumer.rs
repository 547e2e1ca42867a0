//! The queue consumer's decisions. The loop that polls the queue, writes
//! statuses, runs the engine and stores results performs the actions chosen
//! here and reports back what happened.
use vstd::prelude::*;

use crate::classify::{
    failure_kind, failure_payload, is_failure_payload, map_error_to_status, status_for_kind,
    RunnerError,
};
use crate::eval::{EvalEngine, EvalErrorKind, EvalErrorPayload, RunStatus};

verus! {

/// How long one blocking pop on the queue waits, in seconds.
pub const POLL_WAIT_SECONDS: u64 = 5;

/// How long the consumer pauses after an empty poll, in seconds.
pub const IDLE_SLEEP_SECONDS: u64 = 1;

/// What the consumer reads of a run configuration.
#[derive(Clone, Copy, Debug, PartialEq, Eq, Structural)]
pub struct JobSpec {
    pub run_id: u128,
    pub engine: EvalEngine,
}

/// What one poll of the queue gave.
#[derive(Clone, Copy, Debug)]
pub enum PollResult {
    /// The wait ran out with no message.
    Empty,
    /// A message came whose payload is not a run configuration.
    Malformed,
    /// A run configuration came.
    Received(JobSpec),
}

/// Where a job stands.
#[derive(Clone, Copy, Debug, PartialEq, Eq, Structural)]
pub enum JobPhase {
    /// The write of `Running` is under way.
    MarkingRunning,
    /// The engine adapter is running.
    Executing,
    /// The results are being stored.
    Persisting,
    /// The write of the terminal status is under way.
    Finishing { status: RunStatus },
    /// Nothing more is done for this job.
    Done,
}

/// What happened after an action.
#[derive(Debug)]
pub enum JobEvent {
    StatusWritten,
    StatusWriteFailed,
    Executed { outcome: Result<(), RunnerError> },
    Persisted,
    PersistFailed { message: String },
}

/// What the loop is asked to do next.
#[derive(Clone, Debug)]
pub enum JobAction {
    /// Record a status, and the error of a failed run, against the run.
    WriteStatus { run_id: u128, status: RunStatus, error: Option<EvalErrorPayload> },
    /// Run the engine adapter on the run's configuration.
    Execute { run_id: u128 },
    /// Store the evaluation result.
    Persist { run_id: u128 },
    /// The job is over.
    Finish,
    /// The event was not one the job awaited; nothing is to be done.
    Wait,
}

/// What the consumer does after a poll.
#[derive(Clone, Debug)]
pub enum PollDecision {
    /// Pause, then poll again.
    Sleep { seconds: u64 },
    /// Drop the message and poll again; no run is touched.
    Discard,
    /// Start a job with its first action.
    Start { run: JobRun, first: JobAction },
}

/// One job of the consumer: the run it works on and where it stands.
#[derive(Clone, Copy, Debug)]
pub struct JobRun {
    pub job: JobSpec,
    pub phase: JobPhase,
}

/// Whether an evaluation adapter exists for an engine.
pub open spec fn engine_supported(e: EvalEngine) -> bool {
    e is LmEvalHarness
}

/// The phase that follows `phase` when `ev` happens. Events that the phase
/// does not await leave it as it is.
pub open spec fn next_phase(job: JobSpec, phase: JobPhase, ev: JobEvent) -> JobPhase {
    match phase {
        JobPhase::MarkingRunning => match ev {
            JobEvent::StatusWritten => if engine_supported(job.engine) {
                JobPhase::Executing
            } else {
                JobPhase::Finishing { status: status_for_kind(EvalErrorKind::Engine) }
            },
            JobEvent::StatusWriteFailed => JobPhase::Done,
            _ => phase,
        },
        JobPhase::Executing => match ev {
            JobEvent::Executed { outcome } => match outcome {
                Ok(_) => JobPhase::Persisting,
                Err(e) => JobPhase::Finishing { status: status_for_kind(failure_kind(e)) },
            },
            _ => phase,
        },
        JobPhase::Persisting => match ev {
            JobEvent::Persisted => JobPhase::Finishing { status: RunStatus::Completed },
            JobEvent::PersistFailed { .. } => JobPhase::Finishing { status: RunStatus::FailedInfra },
            _ => phase,
        },
        JobPhase::Finishing { .. } => match ev {
            JobEvent::StatusWritten | JobEvent::StatusWriteFailed => JobPhase::Done,
            _ => phase,
        },
        JobPhase::Done => JobPhase::Done,
    }
}

/// The status that `ev` confirms as recorded, if any.
pub open spec fn acknowledged(phase: JobPhase, ev: JobEvent) -> Option<RunStatus> {
    if ev is StatusWritten {
        match phase {
            JobPhase::MarkingRunning => Some(RunStatus::Running),
            JobPhase::Finishing { status } => Some(status),
            _ => None,
        }
    } else {
        None
    }
}

/// `act` writes `status` with `error` against the job's run.
pub open spec fn writes(job: JobSpec, act: JobAction, status: RunStatus, error: Option<EvalErrorPayload>) -> bool {
    act == (JobAction::WriteStatus { run_id: job.run_id, status, error })
}

/// `act` records the failure `err` against the job's run.
pub open spec fn writes_failure(job: JobSpec, act: JobAction, err: RunnerError) -> bool {
    act matches JobAction::WriteStatus { run_id, status, error: Some(p) } && {
        &&& run_id == job.run_id
        &&& status == status_for_kind(failure_kind(err))
        &&& is_failure_payload(err, job.engine, p)
    }
}

/// The payload recorded when storing the results failed with `message`.
pub open spec fn is_persist_failure_payload(message: String, p: EvalErrorPayload) -> bool {
    &&& p.kind == EvalErrorKind::Infra
    &&& p.message == message
    &&& p.code is None
    &&& p.engine is None
    &&& p.details is None
}

/// `act` is what the job asks for when `ev` happens in `phase`.
pub open spec fn is_action_for(job: JobSpec, phase: JobPhase, ev: JobEvent, act: JobAction) -> bool {
    match phase {
        JobPhase::MarkingRunning => match ev {
            JobEvent::StatusWritten => if engine_supported(job.engine) {
                act == (JobAction::Execute { run_id: job.run_id })
            } else {
                writes_failure(job, act, RunnerError::NotSupported)
            },
            JobEvent::StatusWriteFailed => act is Finish,
            _ => act is Wait,
        },
        JobPhase::Executing => match ev {
            JobEvent::Executed { outcome } => match outcome {
                Ok(_) => act == (JobAction::Persist { run_id: job.run_id }),
                Err(e) => writes_failure(job, act, e),
            },
            _ => act is Wait,
        },
        JobPhase::Persisting => match ev {
            JobEvent::Persisted => writes(job, act, RunStatus::Completed, None),
            JobEvent::PersistFailed { message } => act matches JobAction::WriteStatus {
                run_id,
                status,
                error: Some(p),
            } && run_id == job.run_id && status == RunStatus::FailedInfra
                && is_persist_failure_payload(message, p),
            _ => act is Wait,
        },
        JobPhase::Finishing { .. } => match ev {
            JobEvent::StatusWritten | JobEvent::StatusWriteFailed => act is Finish,
            _ => act is Wait,
        },
        JobPhase::Done => act is Wait,
    }
}

/// Whether an evaluation adapter exists for an engine.
pub fn is_engine_supported(engine: EvalEngine) -> (r: bool)
    ensures
        r == engine_supported(engine),
{
    match engine {
        EvalEngine::LmEvalHarness => true,
        _ => false,
    }
}

/// Records a failure: its payload, and the status its kind leads to.
fn failure_action(job: JobSpec, err: RunnerError) -> (act: JobAction)
    ensures
        writes_failure(job, act, err),
{
    let payload = failure_payload(err, job.engine);
    let status = map_error_to_status(payload.kind);
    JobAction::WriteStatus { run_id: job.run_id, status, error: Some(payload) }
}

impl JobRun {
    /// A job for a freshly received run: its first action marks the run
    /// `Running`.
    pub fn start(job: JobSpec) -> (r: (JobRun, JobAction))
        ensures
            r.0.job == job,
            r.0.phase == JobPhase::MarkingRunning,
            writes(job, r.1, RunStatus::Running, None),
    {
        (
            JobRun { job, phase: JobPhase::MarkingRunning },
            JobAction::WriteStatus { run_id: job.run_id, status: RunStatus::Running, error: None },
        )
    }

    /// Takes in what happened after the last action and chooses the next one.
    pub fn step(&mut self, ev: JobEvent) -> (act: JobAction)
        ensures
            final(self).job == old(self).job,
            final(self).phase == next_phase(old(self).job, old(self).phase, ev),
            is_action_for(old(self).job, old(self).phase, ev, act),
    {
        let job = self.job;
        match self.phase {
            JobPhase::MarkingRunning => match ev {
                JobEvent::StatusWritten => {
                    if is_engine_supported(job.engine) {
                        self.phase = JobPhase::Executing;
                        JobAction::Execute { run_id: job.run_id }
                    } else {
                        let act = failure_action(job, RunnerError::NotSupported);
                        self.phase = JobPhase::Finishing { status: RunStatus::FailedEngine };
                        act
                    }
                },
                JobEvent::StatusWriteFailed => {
                    self.phase = JobPhase::Done;
                    JobAction::Finish
                },
                _ => JobAction::Wait,
            },
            JobPhase::Executing => match ev {
                JobEvent::Executed { outcome } => match outcome {
                    Ok(()) => {
                        self.phase = JobPhase::Persisting;
                        JobAction::Persist { run_id: job.run_id }
                    },
                    Err(e) => {
                        let act = failure_action(job, e);
                        if let JobAction::WriteStatus { status, .. } = &act {
                            self.phase = JobPhase::Finishing { status: *status };
                        }
                        act
                    },
                },
                _ => JobAction::Wait,
            },
            JobPhase::Persisting => match ev {
                JobEvent::Persisted => {
                    self.phase = JobPhase::Finishing { status: RunStatus::Completed };
                    JobAction::WriteStatus {
                        run_id: job.run_id,
                        status: RunStatus::Completed,
                        error: None,
                    }
                },
                JobEvent::PersistFailed { message } => {
                    self.phase = JobPhase::Finishing { status: RunStatus::FailedInfra };
                    let payload = EvalErrorPayload {
                        kind: EvalErrorKind::Infra,
                        message,
                        code: None,
                        engine: None,
                        details: None,
                    };
                    JobAction::WriteStatus {
                        run_id: job.run_id,
                        status: RunStatus::FailedInfra,
                        error: Some(payload),
                    }
                },
                _ => JobAction::Wait,
            },
            JobPhase::Finishing { .. } => match ev {
                JobEvent::StatusWritten | JobEvent::StatusWriteFailed => {
                    self.phase = JobPhase::Done;
                    JobAction::Finish
                },
                _ => JobAction::Wait,
            },
            JobPhase::Done => JobAction::Wait,
        }
    }

    /// Whether nothing more is done for this job.
    pub fn is_done(&self) -> (r: bool)
        ensures
            r == (self.phase is Done),
    {
        match self.phase {
            JobPhase::Done => true,
            _ => false,
        }
    }
}

/// What to do after a poll: pause after an empty one, drop a malformed
/// message without touching any run, start a job for a run configuration.
pub fn decide_poll(polled: PollResult) -> (d: PollDecision)
    ensures
        match polled {
            PollResult::Empty => d == (PollDecision::Sleep { seconds: IDLE_SLEEP_SECONDS }),
            PollResult::Malformed => d is Discard,
            PollResult::Received(job) => d matches PollDecision::Start { run, first } && {
                &&& run.job == job
                &&& run.phase == JobPhase::MarkingRunning
                &&& writes(job, first, RunStatus::Running, None)
            },
        },
{
    match polled {
        PollResult::Empty => PollDecision::Sleep { seconds: IDLE_SLEEP_SECONDS },
        PollResult::Malformed => PollDecision::Discard,
        PollResult::Received(job) => {
            let (run, first) = JobRun::start(job);
            PollDecision::Start { run, first }
        },
    }
}

/// The phase a job reaches from its start through the events `evs`.
pub open spec fn phase_after(job: JobSpec, evs: Seq<JobEvent>) -> JobPhase
    decreases evs.len(),
{
    if evs.len() == 0 {
        JobPhase::MarkingRunning
    } else {
        next_phase(job, phase_after(job, evs.drop_last()), evs.last())
    }
}

/// The statuses confirmed as recorded for the run, in order, from the job's
/// start through the events `evs`.
pub open spec fn statuses_after(job: JobSpec, evs: Seq<JobEvent>) -> Seq<RunStatus>
    decreases evs.len(),
{
    if evs.len() == 0 {
        Seq::empty()
    } else {
        let before = statuses_after(job, evs.drop_last());
        match acknowledged(phase_after(job, evs.drop_last()), evs.last()) {
            Some(s) => before.push(s),
            None => before,
        }
    }
}

/// No status write among `evs` failed.
pub open spec fn writes_succeeded(evs: Seq<JobEvent>) -> bool {
    forall|i: int| 0 <= i < evs.len() ==> !(#[trigger] evs[i] is StatusWriteFailed)
}

/// How the recorded statuses stand in each phase.
pub open spec fn recorded_in_phase(phase: JobPhase, h: Seq<RunStatus>) -> bool {
    match phase {
        JobPhase::MarkingRunning => h.len() == 0,
        JobPhase::Executing | JobPhase::Persisting => h == seq![RunStatus::Running],
        JobPhase::Finishing { status } => h == seq![RunStatus::Running] && status.spec_is_terminal(),
        JobPhase::Done => h.len() == 0 || h == seq![RunStatus::Running] || (h.len() == 2
            && h[0] == RunStatus::Running && h[1].spec_is_terminal()),
    }
}

proof fn lemma_recorded_in_phase(job: JobSpec, evs: Seq<JobEvent>)
    ensures
        recorded_in_phase(phase_after(job, evs), statuses_after(job, evs)),
        writes_succeeded(evs) && phase_after(job, evs) is Done ==> statuses_after(job, evs).len() == 2,
    decreases evs.len(),
{
    if evs.len() > 0 {
        let prefix = evs.drop_last();
        lemma_recorded_in_phase(job, prefix);
        let h0 = statuses_after(job, prefix);
        if let Some(s) = acknowledged(phase_after(job, prefix), evs.last()) {
            assert(h0.push(s).len() == h0.len() + 1);
            assert(h0.push(s)[h0.len() as int] == s);
            if h0.len() == 0 {
                assert(h0.push(s) =~= seq![s]);
            }
        }
        if writes_succeeded(evs) {
            assert forall|i: int| 0 <= i < prefix.len() implies !(#[trigger] prefix[i] is StatusWriteFailed) by {
                assert(prefix[i] == evs[i]);
            }
            assert(evs[evs.len() - 1] == evs.last());
        }
    }
}

/// Whatever events a job meets, the statuses recorded for its run are
/// `Running` and then at most one terminal status: the run never goes back to
/// `Queued` or `Running`. A job that finished with every status write
/// succeeding leaves its run in a terminal status.
pub proof fn run_status_moves_forward(job: JobSpec, evs: Seq<JobEvent>)
    ensures
        statuses_after(job, evs).len() <= 2,
        forall|i: int| 0 <= i < statuses_after(job, evs).len() ==> statuses_after(job, evs)[i] != RunStatus::Queued,
        statuses_after(job, evs).len() >= 1 ==> statuses_after(job, evs)[0] == RunStatus::Running,
        statuses_after(job, evs).len() == 2 ==> statuses_after(job, evs)[1].spec_is_terminal(),
        writes_succeeded(evs) && phase_after(job, evs) is Done ==> {
            &&& statuses_after(job, evs).len() == 2
            &&& statuses_after(job, evs).last().spec_is_terminal()
        },
{
    lemma_recorded_in_phase(job, evs);
}

/// The adapter is invoked only once `Running` has been recorded for the run,
/// and nothing else before it: whatever events came first, a step that asks
/// for execution leaves exactly `[Running]` recorded.
pub proof fn execution_follows_running(job: JobSpec, evs: Seq<JobEvent>, ev: JobEvent, act: JobAction)
    requires
        is_action_for(job, phase_after(job, evs), ev, act),
        act is Execute,
    ensures
        statuses_after(job, evs.push(ev)) == seq![RunStatus::Running],
{
    lemma_recorded_in_phase(job, evs);
    let all = evs.push(ev);
    assert(all.drop_last() =~= evs);
    assert(all.last() == ev);
    assert(statuses_after(job, evs).push(RunStatus::Running) =~= seq![RunStatus::Running]);
}

} // verus!
