use vstd::prelude::*;
use crate::output::{Channel, OutputEvent, has_ready_marker, is_ready_line, lossy_text};

verus! {

/// How long the worker has to announce readiness, in milliseconds.
pub const STARTUP_DEADLINE_MS: u64 = 30000;

/// How long one wait for the next output event lasts, in milliseconds.
pub const POLL_SLICE_MS: u64 = 100;

/// What one bounded wait on the worker's output stream produced.
pub enum Received {
    /// A decoded line from one of the two channels.
    Line(Channel, String),
    /// An event that carries no output line (a termination notice, say).
    Other,
    /// The stream ended: the worker exited.
    Closed,
    /// The slice elapsed with nothing received.
    SliceElapsed,
}

/// How a readiness probe ended.
#[derive(Clone, Copy, Debug, PartialEq, Eq, Structural)]
pub enum ProbeOutcome {
    Ready,
    TimedOutStarting,
    ExitedUnexpectedly,
}

/// The probe's verdict after one wait: keep waiting, or finished.
#[derive(Clone, Copy, Debug, PartialEq, Eq, Structural)]
pub enum ProbeStep {
    Pending,
    Done(ProbeOutcome),
}

pub open spec fn received_step(r: Received) -> ProbeStep {
    match r {
        Received::Line(_, text) => if has_ready_marker(text@) {
            ProbeStep::Done(ProbeOutcome::Ready)
        } else {
            ProbeStep::Pending
        },
        Received::Closed => ProbeStep::Done(ProbeOutcome::ExitedUnexpectedly),
        Received::Other => ProbeStep::Pending,
        Received::SliceElapsed => ProbeStep::Pending,
    }
}

impl Received {
    /// A raw output event, decoded lossily into a line of text.
    pub fn from_output(ev: OutputEvent) -> (r: Received)
        ensures
            r matches Received::Line(ch, text) && ch == ev.channel && text@ == lossy_text(ev.bytes@),
    {
        let text = ev.text();
        Received::Line(ev.channel, text)
    }
}

/// The probe gives up once more than the startup deadline has elapsed.
pub fn deadline_passed(elapsed_ms: u64) -> (r: bool)
    ensures
        r == (elapsed_ms > STARTUP_DEADLINE_MS),
{
    elapsed_ms > STARTUP_DEADLINE_MS
}

/// The probe's decision on what one wait produced: a line with a readiness
/// marker on either channel means ready, the end of the stream means the worker
/// exited, anything else means keep waiting.
pub fn on_received(r: &Received) -> (s: ProbeStep)
    ensures
        s == received_step(*r),
{
    match r {
        Received::Line(_, text) => if is_ready_line(text.as_str()) {
            ProbeStep::Done(ProbeOutcome::Ready)
        } else {
            ProbeStep::Pending
        },
        Received::Closed => ProbeStep::Done(ProbeOutcome::ExitedUnexpectedly),
        Received::Other => ProbeStep::Pending,
        Received::SliceElapsed => ProbeStep::Pending,
    }
}

/// An event that a scripted output stream delivers at a given time.
pub struct Scheduled {
    pub at_ms: u64,
    pub event: Received,
}

/// The events of a script come in order of time.
pub open spec fn script_ordered(script: Seq<Scheduled>) -> bool {
    forall|i: int, j: int| 0 <= i <= j < script.len() ==> script[i].at_ms <= script[j].at_ms
}

pub open spec fn time_after(now: int, at: int) -> int {
    if at > now { at } else { now }
}

pub open spec fn deadline_distance(now: int) -> nat {
    if now > STARTUP_DEADLINE_MS { 0 } else { (STARTUP_DEADLINE_MS + 1 - now) as nat }
}

/// The probe on a virtual clock: at time `now`, with `script[next..]` still to
/// come, what it reports and when. Each wait lasts one slice, or ends early
/// when the next event arrives within it.
pub open spec fn scripted_probe(script: Seq<Scheduled>, next: int, now: int) -> (ProbeOutcome, int)
    decreases deadline_distance(now), script.len() - next,
    when 0 <= next && now >= 0
{
    if now > STARTUP_DEADLINE_MS {
        (ProbeOutcome::TimedOutStarting, now)
    } else if next < script.len() && script[next].at_ms <= now + POLL_SLICE_MS {
        let t = time_after(now, script[next].at_ms as int);
        match received_step(script[next].event) {
            ProbeStep::Done(o) => (o, t),
            ProbeStep::Pending => scripted_probe(script, next + 1, t),
        }
    } else {
        scripted_probe(script, next, now + POLL_SLICE_MS)
    }
}

/// Runs the probe against a scripted output stream on a virtual clock that
/// starts at zero, and returns its outcome with the time it was reached.
pub fn probe_scripted(script: &Vec<Scheduled>) -> (r: (ProbeOutcome, u64))
    ensures
        (r.0, r.1 as int) == scripted_probe(script@, 0, 0),
{
    let mut next: usize = 0;
    let mut now: u64 = 0;
    loop
        invariant
            next <= script@.len(),
            now <= STARTUP_DEADLINE_MS + POLL_SLICE_MS,
            scripted_probe(script@, next as int, now as int) == scripted_probe(script@, 0, 0),
        decreases deadline_distance(now as int), script@.len() - next,
    {
        if deadline_passed(now) {
            return (ProbeOutcome::TimedOutStarting, now);
        }
        if next < script.len() && script[next].at_ms <= now + POLL_SLICE_MS {
            let at = script[next].at_ms;
            let t = if at > now { at } else { now };
            match on_received(&script[next].event) {
                ProbeStep::Done(o) => {
                    return (o, t);
                },
                ProbeStep::Pending => {
                    next = next + 1;
                    now = t;
                },
            }
        } else {
            now = now + POLL_SLICE_MS;
        }
    }
}

} // verus!

verus! {

proof fn lemma_decided_at(script: Seq<Scheduled>, next: int, now: int, k: int, o: ProbeOutcome)
    requires
        script_ordered(script),
        0 <= next <= k < script.len(),
        0 <= now <= script[next].at_ms,
        script[k].at_ms <= STARTUP_DEADLINE_MS,
        forall|j: int| next <= j < k ==> received_step(#[trigger] script[j].event) == ProbeStep::Pending,
        received_step(script[k].event) == ProbeStep::Done(o),
    ensures
        scripted_probe(script, next, now) == (o, script[k].at_ms as int),
    decreases deadline_distance(now), script.len() - next,
{
    if script[next].at_ms <= now + POLL_SLICE_MS {
        if next < k {
            assert(received_step(script[next].event) == ProbeStep::Pending);
            lemma_decided_at(script, next + 1, script[next].at_ms as int, k, o);
        }
    } else {
        lemma_decided_at(script, next, now + POLL_SLICE_MS, k, o);
    }
}

/// The first event that settles the probe settles it at the moment it arrives:
/// if every earlier event leaves the probe waiting and that event comes within
/// the startup deadline, the probe reports that event's verdict at its time,
/// without waiting out the deadline.
pub proof fn lemma_first_decisive_event(script: Seq<Scheduled>, k: int, o: ProbeOutcome)
    requires
        script_ordered(script),
        0 <= k < script.len(),
        script[k].at_ms <= STARTUP_DEADLINE_MS,
        forall|j: int| 0 <= j < k ==> received_step(#[trigger] script[j].event) == ProbeStep::Pending,
        received_step(script[k].event) == ProbeStep::Done(o),
    ensures
        scripted_probe(script, 0, 0) == (o, script[k].at_ms as int),
{
    lemma_decided_at(script, 0, 0, k, o);
}

/// Readiness detection: a line with a readiness marker, on either channel,
/// that arrives within the deadline after lines without one, makes the probe
/// report ready exactly when it arrives.
pub proof fn lemma_marker_line_means_ready(script: Seq<Scheduled>, k: int)
    requires
        script_ordered(script),
        0 <= k < script.len(),
        script[k].at_ms <= STARTUP_DEADLINE_MS,
        forall|j: int| 0 <= j < k ==> received_step(#[trigger] script[j].event) == ProbeStep::Pending,
        script[k].event matches Received::Line(_, text) && has_ready_marker(text@),
    ensures
        scripted_probe(script, 0, 0) == (ProbeOutcome::Ready, script[k].at_ms as int),
{
    lemma_first_decisive_event(script, k, ProbeOutcome::Ready);
}

/// Unexpected exit: a stream that ends within the deadline, with no readiness
/// marker before, makes the probe report the exit as soon as the stream ends.
pub proof fn lemma_stream_end_means_exited(script: Seq<Scheduled>, k: int)
    requires
        script_ordered(script),
        0 <= k < script.len(),
        script[k].at_ms <= STARTUP_DEADLINE_MS,
        forall|j: int| 0 <= j < k ==> received_step(#[trigger] script[j].event) == ProbeStep::Pending,
        script[k].event matches Received::Closed,
    ensures
        scripted_probe(script, 0, 0) == (ProbeOutcome::ExitedUnexpectedly, script[k].at_ms as int),
{
    lemma_first_decisive_event(script, k, ProbeOutcome::ExitedUnexpectedly);
}

proof fn lemma_times_out_from(script: Seq<Scheduled>, next: int, now: int)
    requires
        0 <= next <= script.len(),
        0 <= now <= STARTUP_DEADLINE_MS + POLL_SLICE_MS,
        forall|j: int| 0 <= j < script.len() ==> received_step(#[trigger] script[j].event) == ProbeStep::Pending,
    ensures
        scripted_probe(script, next, now).0 == ProbeOutcome::TimedOutStarting,
        STARTUP_DEADLINE_MS < scripted_probe(script, next, now).1 <= STARTUP_DEADLINE_MS + POLL_SLICE_MS,
    decreases deadline_distance(now), script.len() - next,
{
    if now > STARTUP_DEADLINE_MS {
    } else if next < script.len() && script[next].at_ms <= now + POLL_SLICE_MS {
        assert(received_step(script[next].event) == ProbeStep::Pending);
        lemma_times_out_from(script, next + 1, time_after(now, script[next].at_ms as int));
    } else {
        lemma_times_out_from(script, next, now + POLL_SLICE_MS);
    }
}

/// Startup timeout: a stream that never shows a readiness marker and never
/// ends makes the probe report a timeout after the deadline has passed, and no
/// later than one slice after it.
pub proof fn lemma_silent_stream_times_out(script: Seq<Scheduled>)
    requires
        forall|j: int| 0 <= j < script.len() ==> received_step(#[trigger] script[j].event) == ProbeStep::Pending,
    ensures
        scripted_probe(script, 0, 0).0 == ProbeOutcome::TimedOutStarting,
        STARTUP_DEADLINE_MS < scripted_probe(script, 0, 0).1 <= STARTUP_DEADLINE_MS + POLL_SLICE_MS,
{
    lemma_times_out_from(script, 0, 0);
}

} // verus!
