use vstd::prelude::*;

verus! {

/// How long a close request waits for the frontend's acknowledgement, in
/// milliseconds.
pub const CLOSE_ACK_TIMEOUT_MS: u64 = 5000;

/// Where one close request stands.
#[derive(Clone, Copy, Debug, PartialEq, Eq, Structural)]
pub enum ClosePhase {
    /// The window's default close was suppressed; the frontend is being told.
    Requested,
    /// The frontend was told; its acknowledgement is awaited.
    WaitingForAck,
    /// The window may close.
    Done,
}

/// Which arm of the bounded wait came first.
#[derive(Clone, Copy, Debug, PartialEq, Eq, Structural)]
pub enum AckOutcome {
    Acknowledged,
    TimedOut,
}

/// The state of one close request: its phase, the subscription to the
/// frontend's acknowledgement while one is held, and how the wait ended.
pub struct CloseSession {
    phase: ClosePhase,
    subscription: Option<u32>,
    outcome: Option<AckOutcome>,
    close_permitted: bool,
}

impl CloseSession {
    pub closed spec fn phase_spec(&self) -> ClosePhase {
        self.phase
    }

    pub closed spec fn subscription_spec(&self) -> Option<u32> {
        self.subscription
    }

    pub closed spec fn outcome_spec(&self) -> Option<AckOutcome> {
        self.outcome
    }

    pub closed spec fn close_permitted_spec(&self) -> bool {
        self.close_permitted
    }

    /// A subscription is held only while the acknowledgement is awaited, and
    /// the close is permitted exactly once the session is done.
    pub open spec fn wf(&self) -> bool {
        &&& (self.phase_spec() != ClosePhase::WaitingForAck ==> self.subscription_spec().is_none())
        &&& (self.close_permitted_spec() <==> self.phase_spec() == ClosePhase::Done)
        &&& (self.phase_spec() != ClosePhase::Done ==> self.outcome_spec().is_none())
    }

    /// A session as a close request opens it, with nothing left from any other.
    pub open spec fn fresh(&self) -> bool {
        &&& self.phase_spec() == ClosePhase::Requested
        &&& self.subscription_spec().is_none()
        &&& self.outcome_spec().is_none()
        &&& !self.close_permitted_spec()
    }

    /// Opens the session for a new close request.
    pub fn request() -> (r: Self)
        ensures
            r.wf(),
            r.fresh(),
    {
        CloseSession { phase: ClosePhase::Requested, subscription: None, outcome: None, close_permitted: false }
    }

    pub fn phase(&self) -> (r: ClosePhase)
        ensures
            r == self.phase_spec(),
    {
        self.phase
    }

    pub fn close_permitted(&self) -> (r: bool)
        ensures
            r == self.close_permitted_spec(),
    {
        self.close_permitted
    }

    /// Records whether the close notification reached the frontend. If it did,
    /// the acknowledgement is awaited; if not, the window closes at once
    /// rather than stay unclosable. Returns whether to close now.
    pub fn notified(&mut self, emitted: bool) -> (close_now: bool)
        requires
            old(self).wf(),
            old(self).phase_spec() == ClosePhase::Requested,
        ensures
            final(self).wf(),
            close_now == !emitted,
            final(self).subscription_spec().is_none(),
            final(self).outcome_spec().is_none(),
            emitted ==> final(self).phase_spec() == ClosePhase::WaitingForAck,
            !emitted ==> final(self).phase_spec() == ClosePhase::Done,
    {
        if emitted {
            self.phase = ClosePhase::WaitingForAck;
            false
        } else {
            self.phase = ClosePhase::Done;
            self.close_permitted = true;
            true
        }
    }

    /// Records the subscription to the frontend's acknowledgement.
    pub fn subscribed(&mut self, token: u32)
        requires
            old(self).wf(),
            old(self).phase_spec() == ClosePhase::WaitingForAck,
            old(self).subscription_spec().is_none(),
        ensures
            final(self).wf(),
            final(self).phase_spec() == ClosePhase::WaitingForAck,
            final(self).subscription_spec() == Some(token),
            final(self).outcome_spec().is_none(),
    {
        self.subscription = Some(token);
    }

    /// Ends the wait, by acknowledgement or by timeout alike: the close is
    /// permitted, and the subscription, if one was made, is handed back to be
    /// released; none is held afterwards.
    pub fn resolve(&mut self, outcome: AckOutcome) -> (release: Option<u32>)
        requires
            old(self).wf(),
            old(self).phase_spec() == ClosePhase::WaitingForAck,
        ensures
            final(self).wf(),
            final(self).phase_spec() == ClosePhase::Done,
            final(self).close_permitted_spec(),
            final(self).outcome_spec() == Some(outcome),
            final(self).subscription_spec().is_none(),
            release == old(self).subscription_spec(),
    {
        self.phase = ClosePhase::Done;
        self.close_permitted = true;
        self.outcome = Some(outcome);
        self.subscription.take()
    }
}

/// The bounded wait on a virtual clock that starts at zero: the
/// acknowledgement wins if it arrives within the bound, else the bound does.
pub open spec fn race_spec(ack_at_ms: Option<u64>) -> (AckOutcome, u64) {
    match ack_at_ms {
        Some(a) => if a <= CLOSE_ACK_TIMEOUT_MS {
            (AckOutcome::Acknowledged, a)
        } else {
            (AckOutcome::TimedOut, CLOSE_ACK_TIMEOUT_MS)
        },
        None => (AckOutcome::TimedOut, CLOSE_ACK_TIMEOUT_MS),
    }
}

/// Races an acknowledgement arriving at `ack_at_ms` (never, if `None`) against
/// the close bound, and returns the winner with the time the close proceeds.
pub fn race_scripted(ack_at_ms: Option<u64>) -> (r: (AckOutcome, u64))
    ensures
        r == race_spec(ack_at_ms),
{
    match ack_at_ms {
        Some(a) => if a <= CLOSE_ACK_TIMEOUT_MS {
            (AckOutcome::Acknowledged, a)
        } else {
            (AckOutcome::TimedOut, CLOSE_ACK_TIMEOUT_MS)
        },
        None => (AckOutcome::TimedOut, CLOSE_ACK_TIMEOUT_MS),
    }
}

/// Fail-open close: with no acknowledgement within the bound the close
/// proceeds exactly when the bound elapses, neither before nor later.
pub proof fn lemma_no_ack_closes_at_bound(ack_at_ms: Option<u64>)
    requires
        ack_at_ms matches Some(a) ==> a > CLOSE_ACK_TIMEOUT_MS,
    ensures
        race_spec(ack_at_ms) == (AckOutcome::TimedOut, CLOSE_ACK_TIMEOUT_MS),
{
}

/// Fast path: an acknowledgement within the bound lets the close proceed at
/// the moment it arrives, without waiting out the bound.
pub proof fn lemma_ack_closes_on_arrival(a: u64)
    requires
        a <= CLOSE_ACK_TIMEOUT_MS,
    ensures
        race_spec(Some(a)) == (AckOutcome::Acknowledged, a),
{
}

/// No residue between close requests: a session that has ended, by either
/// arm of the wait or by failing open, holds no subscription and has permitted
/// its close; the session of the next request starts fresh.
pub proof fn lemma_ended_session_leaves_no_residue(ended: CloseSession, next: CloseSession)
    requires
        ended.wf(),
        ended.phase_spec() == ClosePhase::Done,
        next.fresh(),
    ensures
        ended.subscription_spec().is_none(),
        ended.close_permitted_spec(),
        next.wf(),
        next.subscription_spec().is_none(),
        next.outcome_spec().is_none(),
{
}

} // verus!
