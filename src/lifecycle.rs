use vstd::prelude::*;
use vstd::string::StringExecFns;
use crate::error::WorkerError;
use crate::probe::ProbeOutcome;

verus! {

/// Where the supervised worker stands.
#[derive(Clone, Copy, Debug, PartialEq, Eq, Structural)]
pub enum Lifecycle {
    NotStarted,
    Starting,
    Ready,
    Stopped,
    FailedToStart,
    TimedOutStarting,
    ExitedUnexpectedly,
}

/// A worker process is held exactly while the worker is starting or ready.
pub open spec fn holds_worker(s: Lifecycle) -> bool {
    s == Lifecycle::Starting || s == Lifecycle::Ready
}

/// The lifecycle state that a finished readiness probe leads to.
pub open spec fn after_probe(o: ProbeOutcome) -> Lifecycle {
    match o {
        ProbeOutcome::Ready => Lifecycle::Ready,
        ProbeOutcome::TimedOutStarting => Lifecycle::TimedOutStarting,
        ProbeOutcome::ExitedUnexpectedly => Lifecycle::ExitedUnexpectedly,
    }
}

pub open spec fn already_running_message() -> Seq<char> {
    "Server already running on http://localhost:8000"@
}

pub open spec fn started_message() -> Seq<char> {
    "Server started on http://localhost:8000"@
}

/// The worker's arguments: its data directory, and an address that accepts
/// connections from other machines when `remote` is set.
pub open spec fn launch_args(data_dir: Seq<char>, remote: bool) -> Seq<Seq<char>> {
    let base = seq!["--data-dir"@, data_dir];
    if remote { base + seq!["--host"@, "0.0.0.0"@] } else { base }
}

/// What a start request reports once the readiness probe has ended: a note
/// that the worker started, or the probe's failure.
pub fn start_result(outcome: ProbeOutcome) -> (r: Result<String, WorkerError>)
    ensures
        outcome == ProbeOutcome::Ready ==> (r matches Ok(m) && m@ == started_message()),
        outcome == ProbeOutcome::TimedOutStarting ==> (r matches Err(WorkerError::TimedOutStarting)),
        outcome == ProbeOutcome::ExitedUnexpectedly ==> (r matches Err(WorkerError::ExitedUnexpectedly)),
{
    match outcome {
        ProbeOutcome::Ready => Ok(String::from_str("Server started on http://localhost:8000")),
        ProbeOutcome::TimedOutStarting => Err(WorkerError::TimedOutStarting),
        ProbeOutcome::ExitedUnexpectedly => Err(WorkerError::ExitedUnexpectedly),
    }
}

/// What a start request should do.
pub enum StartPlan {
    /// A worker is already held: report it, launch nothing.
    AlreadyRunning(String),
    /// Launch the worker with these arguments.
    Launch(Vec<String>),
}

/// Owns the one worker process, if any, and tracks its lifecycle.
pub struct Coordinator<H> {
    state: Lifecycle,
    worker: Option<H>,
}

impl<H> Coordinator<H> {
    pub closed spec fn state_spec(&self) -> Lifecycle {
        self.state
    }

    pub closed spec fn worker_spec(&self) -> Option<H> {
        self.worker
    }

    /// A worker is held exactly in the states that need one.
    pub open spec fn wf(&self) -> bool {
        self.worker_spec().is_some() <==> holds_worker(self.state_spec())
    }

    /// The plan that a start request gets in this state.
    pub open spec fn start_plan_spec(&self, data_dir: Seq<char>, remote: bool) -> Result<Seq<Seq<char>>, Seq<char>> {
        if self.worker_spec().is_some() {
            Err(already_running_message())
        } else {
            Ok(launch_args(data_dir, remote))
        }
    }

    pub fn new() -> (r: Self)
        ensures
            r.wf(),
            r.state_spec() == Lifecycle::NotStarted,
            r.worker_spec().is_none(),
    {
        Coordinator { state: Lifecycle::NotStarted, worker: None }
    }

    pub fn state(&self) -> (r: Lifecycle)
        ensures
            r == self.state_spec(),
    {
        self.state
    }

    pub fn is_running(&self) -> (r: bool)
        ensures
            r == self.worker_spec().is_some(),
    {
        self.worker.is_some()
    }

    /// Decides a start request: while a worker is held the request succeeds at
    /// once with a note, and launches nothing; otherwise it gives the arguments
    /// to launch the worker with.
    pub fn plan_start(&self, data_dir: &str, remote: bool) -> (r: StartPlan)
        ensures
            match r {
                StartPlan::AlreadyRunning(msg) => self.start_plan_spec(data_dir@, remote) == Err::<Seq<Seq<char>>, Seq<char>>(msg@),
                StartPlan::Launch(args) => self.start_plan_spec(data_dir@, remote) == Ok::<Seq<Seq<char>>, Seq<char>>(args@.map_values(|a: String| a@)),
            },
    {
        if self.worker.is_some() {
            return StartPlan::AlreadyRunning(String::from_str("Server already running on http://localhost:8000"));
        }
        let mut args: Vec<String> = Vec::new();
        args.push(String::from_str("--data-dir"));
        args.push(String::from_str(data_dir));
        if remote {
            args.push(String::from_str("--host"));
            args.push(String::from_str("0.0.0.0"));
        }
        assert(args@.map_values(|a: String| a@) =~= launch_args(data_dir@, remote));
        StartPlan::Launch(args)
    }

    /// The launched worker is now held, and starting.
    pub fn launched(&mut self, worker: H)
        requires
            old(self).wf(),
            old(self).worker_spec().is_none(),
        ensures
            final(self).wf(),
            final(self).state_spec() == Lifecycle::Starting,
            final(self).worker_spec() == Some(worker),
    {
        self.state = Lifecycle::Starting;
        self.worker = Some(worker);
    }

    /// The launch itself failed: nothing is held.
    pub fn launch_failed(&mut self)
        requires
            old(self).wf(),
            old(self).worker_spec().is_none(),
        ensures
            final(self).wf(),
            final(self).state_spec() == Lifecycle::FailedToStart,
            final(self).worker_spec().is_none(),
    {
        self.state = Lifecycle::FailedToStart;
    }

    /// Records how the readiness probe ended. A ready worker stays held; on a
    /// failure the worker is given back, to be terminated and dropped, and none
    /// is held any more.
    pub fn finish_start(&mut self, outcome: ProbeOutcome) -> (r: Option<H>)
        requires
            old(self).wf(),
            old(self).state_spec() == Lifecycle::Starting,
        ensures
            final(self).wf(),
            final(self).state_spec() == after_probe(outcome),
            outcome == ProbeOutcome::Ready ==> r.is_none() && final(self).worker_spec() == old(self).worker_spec(),
            outcome != ProbeOutcome::Ready ==> r == old(self).worker_spec() && final(self).worker_spec().is_none(),
    {
        match outcome {
            ProbeOutcome::Ready => {
                self.state = Lifecycle::Ready;
                None
            },
            ProbeOutcome::TimedOutStarting => {
                self.state = Lifecycle::TimedOutStarting;
                self.worker.take()
            },
            ProbeOutcome::ExitedUnexpectedly => {
                self.state = Lifecycle::ExitedUnexpectedly;
                self.worker.take()
            },
        }
    }

    /// Gives back the held worker, if any, to be terminated; afterwards none is
    /// held. With no worker held nothing changes.
    pub fn stop(&mut self) -> (r: Option<H>)
        requires
            old(self).wf(),
        ensures
            final(self).wf(),
            r == old(self).worker_spec(),
            final(self).worker_spec().is_none(),
            old(self).worker_spec().is_some() ==> final(self).state_spec() == Lifecycle::Stopped,
            old(self).worker_spec().is_none() ==> final(self).state_spec() == old(self).state_spec(),
    {
        let r = self.worker.take();
        if r.is_some() {
            self.state = Lifecycle::Stopped;
        }
        r
    }
}

} // verus!

verus! {

/// Starting twice launches once: while the worker is starting or ready, every
/// start request, whatever its arguments, is answered that the worker is
/// already running and plans no launch.
pub proof fn lemma_start_is_idempotent<H>(c: Coordinator<H>, data_dir: Seq<char>, remote: bool)
    requires
        c.wf(),
        holds_worker(c.state_spec()),
    ensures
        c.start_plan_spec(data_dir, remote) == Err::<Seq<Seq<char>>, Seq<char>>(already_running_message()),
{
}

} // verus!
