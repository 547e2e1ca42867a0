//! Run state tracking: the status and error of one run, the transition that
//! overwrites them, and their encoding as text columns of a run record.
use vstd::prelude::*;
use vstd::string::*;

use crate::eval::{EvalErrorKind, EvalErrorPayload, RunStatus};

verus! {

/// The column text of a status.
pub open spec fn status_text(s: RunStatus) -> Seq<char> {
    match s {
        RunStatus::Queued => "queued"@,
        RunStatus::Running => "running"@,
        RunStatus::Completed => "completed"@,
        RunStatus::FailedConfig => "failed_config"@,
        RunStatus::FailedEngine => "failed_engine"@,
        RunStatus::FailedInfra => "failed_infra"@,
        RunStatus::TimedOut => "timed_out"@,
        RunStatus::Cancelled => "cancelled"@,
    }
}

/// The status that a column text stands for; text that names no status reads
/// as `Queued`.
pub open spec fn status_of_text(t: Seq<char>) -> RunStatus {
    if t == "running"@ {
        RunStatus::Running
    } else if t == "completed"@ {
        RunStatus::Completed
    } else if t == "failed_config"@ {
        RunStatus::FailedConfig
    } else if t == "failed_engine"@ {
        RunStatus::FailedEngine
    } else if t == "failed_infra"@ {
        RunStatus::FailedInfra
    } else if t == "timed_out"@ {
        RunStatus::TimedOut
    } else if t == "cancelled"@ {
        RunStatus::Cancelled
    } else {
        RunStatus::Queued
    }
}

/// The column text of an error kind.
pub open spec fn error_kind_text(k: EvalErrorKind) -> Seq<char> {
    match k {
        EvalErrorKind::Config => "config"@,
        EvalErrorKind::Engine => "engine"@,
        EvalErrorKind::Infra => "infra"@,
        EvalErrorKind::Timeout => "timeout"@,
        EvalErrorKind::Cancelled => "cancelled"@,
        EvalErrorKind::Unknown => "unknown"@,
    }
}

/// The error kind that a column text stands for; unrecognised text reads as
/// `Unknown`.
pub open spec fn error_kind_of_text(t: Seq<char>) -> EvalErrorKind {
    if t == "config"@ {
        EvalErrorKind::Config
    } else if t == "engine"@ {
        EvalErrorKind::Engine
    } else if t == "infra"@ {
        EvalErrorKind::Infra
    } else if t == "timeout"@ {
        EvalErrorKind::Timeout
    } else if t == "cancelled"@ {
        EvalErrorKind::Cancelled
    } else {
        EvalErrorKind::Unknown
    }
}

/// Whether two strings hold the same characters.
pub fn text_eq(a: &str, b: &str) -> (r: bool)
    ensures
        r == (a@ == b@),
{
    let x = String::from_str(a);
    let y = String::from_str(b);
    x == y
}

pub fn status_to_str(status: RunStatus) -> (r: &'static str)
    ensures
        r@ == status_text(status),
{
    match status {
        RunStatus::Queued => "queued",
        RunStatus::Running => "running",
        RunStatus::Completed => "completed",
        RunStatus::FailedConfig => "failed_config",
        RunStatus::FailedEngine => "failed_engine",
        RunStatus::FailedInfra => "failed_infra",
        RunStatus::TimedOut => "timed_out",
        RunStatus::Cancelled => "cancelled",
    }
}

pub fn status_from_str(value: &str) -> (r: RunStatus)
    ensures
        r == status_of_text(value@),
{
    if text_eq(value, "running") {
        RunStatus::Running
    } else if text_eq(value, "completed") {
        RunStatus::Completed
    } else if text_eq(value, "failed_config") {
        RunStatus::FailedConfig
    } else if text_eq(value, "failed_engine") {
        RunStatus::FailedEngine
    } else if text_eq(value, "failed_infra") {
        RunStatus::FailedInfra
    } else if text_eq(value, "timed_out") {
        RunStatus::TimedOut
    } else if text_eq(value, "cancelled") {
        RunStatus::Cancelled
    } else {
        RunStatus::Queued
    }
}

pub fn error_kind_to_str(kind: EvalErrorKind) -> (r: &'static str)
    ensures
        r@ == error_kind_text(kind),
{
    match kind {
        EvalErrorKind::Config => "config",
        EvalErrorKind::Engine => "engine",
        EvalErrorKind::Infra => "infra",
        EvalErrorKind::Timeout => "timeout",
        EvalErrorKind::Cancelled => "cancelled",
        EvalErrorKind::Unknown => "unknown",
    }
}

pub fn error_kind_from_str(value: &str) -> (r: EvalErrorKind)
    ensures
        r == error_kind_of_text(value@),
{
    if text_eq(value, "config") {
        EvalErrorKind::Config
    } else if text_eq(value, "engine") {
        EvalErrorKind::Engine
    } else if text_eq(value, "infra") {
        EvalErrorKind::Infra
    } else if text_eq(value, "timeout") {
        EvalErrorKind::Timeout
    } else if text_eq(value, "cancelled") {
        EvalErrorKind::Cancelled
    } else {
        EvalErrorKind::Unknown
    }
}

/// Column text never read back as a different status.
pub proof fn status_text_round_trip(s: RunStatus)
    ensures
        status_of_text(status_text(s)) == s,
{
    reveal_strlit("queued");
    reveal_strlit("running");
    reveal_strlit("completed");
    reveal_strlit("failed_config");
    reveal_strlit("failed_engine");
    reveal_strlit("failed_infra");
    reveal_strlit("timed_out");
    reveal_strlit("cancelled");
    assert("queued"@[0] == 'q' && "running"@[0] == 'r' && "timed_out"@[0] == 't');
    assert("completed"@[1] == 'o' && "cancelled"@[1] == 'a');
    assert("failed_config"@[0] == 'f' && "failed_engine"@[0] == 'f' && "failed_infra"@[0] == 'f');
    assert("failed_config"@[7] == 'c' && "failed_engine"@[7] == 'e');
    assert("completed"@[0] == 'c' && "cancelled"@[0] == 'c');
}

/// Column text never read back as a different error kind.
pub proof fn error_kind_text_round_trip(k: EvalErrorKind)
    ensures
        error_kind_of_text(error_kind_text(k)) == k,
{
    reveal_strlit("config");
    reveal_strlit("engine");
    reveal_strlit("infra");
    reveal_strlit("timeout");
    reveal_strlit("cancelled");
    reveal_strlit("unknown");
    assert("config"@[0] == 'c' && "engine"@[0] == 'e' && "infra"@[0] == 'i');
    assert("timeout"@[0] == 't' && "cancelled"@[0] == 'c' && "unknown"@[0] == 'u');
    assert("config"@[1] == 'o' && "cancelled"@[1] == 'a');
}

/// What the tracker holds of one run: its status and, for a failed run, the
/// error that ended it.
#[derive(Clone, Debug)]
pub struct RunState {
    pub status: RunStatus,
    pub error: Option<EvalErrorPayload>,
}

impl RunState {
    /// The state after a transition: the status is always overwritten (the
    /// last writer wins); the error only when the transition carries one.
    pub open spec fn after(self, status: RunStatus, error: Option<EvalErrorPayload>) -> RunState {
        RunState {
            status,
            error: if error is Some {
                error
            } else {
                self.error
            },
        }
    }

    pub fn new(status: RunStatus) -> (r: RunState)
        ensures
            r.status == status,
            r.error is None,
    {
        RunState { status, error: None }
    }

    /// Writes a new status, and the error when one is given.
    pub fn transition(&mut self, status: RunStatus, error: Option<EvalErrorPayload>)
        ensures
            *final(self) == old(self).after(status, error),
    {
        self.status = status;
        if error.is_some() {
            self.error = error;
        }
    }
}

/// Repeating a transition with the same status and error changes nothing
/// that the first one did not.
pub proof fn transition_idempotent(r: RunState, status: RunStatus, error: Option<EvalErrorPayload>)
    ensures
        r.after(status, error).after(status, error) == r.after(status, error),
{
}

/// The error columns of a run record. The kind column is set exactly when the
/// record holds an error.
#[derive(Clone, Debug)]
pub struct ErrorColumns {
    pub kind: String,
    pub code: Option<String>,
    pub message: Option<String>,
    pub engine: Option<String>,
    pub details: Option<String>,
}

impl ErrorColumns {
    /// The columns hold exactly the payload `e`.
    pub open spec fn encodes(self, e: EvalErrorPayload) -> bool {
        &&& self.kind@ == error_kind_text(e.kind)
        &&& self.code == e.code
        &&& self.message == Some(e.message)
        &&& self.engine == e.engine
        &&& self.details == e.details
    }

    /// Reading the columns gives `e`; a missing message reads as empty.
    pub open spec fn reads_as(self, e: EvalErrorPayload) -> bool {
        &&& e.kind == error_kind_of_text(self.kind@)
        &&& match self.message {
            Some(m) => e.message == m,
            None => e.message@ == Seq::<char>::empty(),
        }
        &&& e.code == self.code
        &&& e.engine == self.engine
        &&& e.details == self.details
    }
}

/// The status and error columns of a run record; `error` is `None` when the
/// error columns are empty.
#[derive(Clone, Debug)]
pub struct StatusRow {
    pub status: String,
    pub error: Option<ErrorColumns>,
}

/// What a transition writes to a run record: the status column always, the
/// error columns only when `error` is `Some`.
#[derive(Clone, Debug)]
pub struct StatusUpdate {
    pub status: String,
    pub error: Option<ErrorColumns>,
}

impl StatusUpdate {
    /// The update records a transition to `status` with `error`.
    pub open spec fn encodes(self, status: RunStatus, error: Option<EvalErrorPayload>) -> bool {
        &&& self.status@ == status_text(status)
        &&& match error {
            None => self.error is None,
            Some(e) => self.error matches Some(c) && c.encodes(e),
        }
    }
}

impl StatusRow {
    /// Reading the row gives `r`: an error is present exactly when the error
    /// columns are set.
    pub open spec fn reads_as(self, r: RunState) -> bool {
        &&& r.status == status_of_text(self.status@)
        &&& match self.error {
            None => r.error is None,
            Some(c) => r.error matches Some(e) && c.reads_as(e),
        }
    }

    /// The row after an update: the status column replaced, the error columns
    /// replaced only by an update that carries them.
    pub open spec fn applied(self, u: StatusUpdate) -> StatusRow {
        StatusRow {
            status: u.status,
            error: if u.error is Some {
                u.error
            } else {
                self.error
            },
        }
    }

    /// Applies an update to the row.
    pub fn apply(&mut self, u: StatusUpdate)
        ensures
            *final(self) == old(self).applied(u),
    {
        self.status = u.status;
        if u.error.is_some() {
            self.error = u.error;
        }
    }
}

/// The columns that a transition to `status` with `error` writes.
pub fn status_update(status: RunStatus, error: Option<EvalErrorPayload>) -> (u: StatusUpdate)
    ensures
        u.encodes(status, error),
{
    let status_col = String::from_str(status_to_str(status));
    match error {
        None => StatusUpdate { status: status_col, error: None },
        Some(e) => StatusUpdate {
            status: status_col,
            error: Some(
                ErrorColumns {
                    kind: String::from_str(error_kind_to_str(e.kind)),
                    code: e.code,
                    message: Some(e.message),
                    engine: e.engine,
                    details: e.details,
                },
            ),
        },
    }
}

/// The status and error that a run record's columns hold.
pub fn run_state_from_row(row: StatusRow) -> (r: RunState)
    ensures
        row.reads_as(r),
{
    let status = status_from_str(row.status.as_str());
    let error = match row.error {
        None => None,
        Some(c) => {
            let message = match c.message {
                Some(m) => m,
                None => String::new(),
            };
            Some(
                EvalErrorPayload {
                    kind: error_kind_from_str(c.kind.as_str()),
                    message,
                    code: c.code,
                    engine: c.engine,
                    details: c.details,
                },
            )
        },
    };
    RunState { status, error }
}

/// Writing a transition to a record changes what the record reads as exactly
/// as the transition changes the run's state: the new status, the new error
/// if one was given, and otherwise the error it held before.
pub proof fn stored_transition_matches(
    row: StatusRow,
    r: RunState,
    status: RunStatus,
    error: Option<EvalErrorPayload>,
    u: StatusUpdate,
)
    requires
        row.reads_as(r),
        u.encodes(status, error),
    ensures
        row.applied(u).reads_as(r.after(status, error)),
{
    status_text_round_trip(status);
    if let Some(e) = error {
        error_kind_text_round_trip(e.kind);
    }
}

/// Writing the same update twice leaves the record as writing it once.
pub proof fn update_idempotent(row: StatusRow, u: StatusUpdate)
    ensures
        row.applied(u).applied(u) == row.applied(u),
{
}

} // verus!
