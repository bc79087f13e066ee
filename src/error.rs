use vstd::prelude::*;
use vstd::string::StringExecFns;

verus! {

/// Why a start, a stop or a close notification failed.
pub enum WorkerError {
    /// The data directory could not be created; the detail says why.
    DirectoryCreationFailed(String),
    /// The worker process could not be launched.
    SpawnFailed(String),
    /// The worker did not announce readiness within the deadline.
    TimedOutStarting,
    /// The worker's output ended before it announced readiness.
    ExitedUnexpectedly,
    /// The worker could not be terminated.
    TerminationFailed(String),
    /// The close notification could not be sent to the frontend.
    NotificationEmitFailed(String),
}

pub open spec fn error_text(e: WorkerError) -> Seq<char> {
    match e {
        WorkerError::DirectoryCreationFailed(d) => "Failed to create data dir: "@ + d@,
        WorkerError::SpawnFailed(d) => "Failed to spawn: "@ + d@,
        WorkerError::TimedOutStarting => "Server startup timeout"@,
        WorkerError::ExitedUnexpectedly => "Server process ended unexpectedly"@,
        WorkerError::TerminationFailed(d) => "Failed to kill: "@ + d@,
        WorkerError::NotificationEmitFailed(d) => "Failed to emit window-close-requested event: "@ + d@,
    }
}

fn prefixed(prefix: &str, detail: &String) -> (r: String)
    ensures
        r@ == prefix@ + detail@,
{
    let mut s = String::from_str(prefix);
    s.append(detail.as_str());
    s
}

impl WorkerError {
    /// The text reported to the caller for this error.
    pub fn message(&self) -> (r: String)
        ensures
            r@ == error_text(*self),
    {
        match self {
            WorkerError::DirectoryCreationFailed(d) => prefixed("Failed to create data dir: ", d),
            WorkerError::SpawnFailed(d) => prefixed("Failed to spawn: ", d),
            WorkerError::TimedOutStarting => String::from_str("Server startup timeout"),
            WorkerError::ExitedUnexpectedly => String::from_str("Server process ended unexpectedly"),
            WorkerError::TerminationFailed(d) => prefixed("Failed to kill: ", d),
            WorkerError::NotificationEmitFailed(d) => prefixed("Failed to emit window-close-requested event: ", d),
        }
    }
}

} // verus!
