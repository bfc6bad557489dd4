//! The credential check: one at a time, its outcome in a three-state cell.

use vstd::prelude::*;

verus! {

/// The state of the credential check.
#[derive(Debug, Clone, Copy, PartialEq, Eq, Structural)]
pub enum AuthState {
    /// No check was made yet.
    Idle,
    /// A worker is checking.
    Running,
    /// The last worker's verdict.
    Result(bool),
}

/// What a worker found.
#[derive(Debug, Clone, Copy, PartialEq, Eq, Structural)]
pub enum Verdict {
    /// The host's authentication service took the credentials.
    Accepted,
    /// It did not take them.
    Rejected,
    /// The service could not even be asked. That fails this one attempt
    /// and nothing else.
    InitFailed,
}

impl Verdict {
    /// Whether the verdict is in favour.
    pub open spec fn in_favour(self) -> bool {
        self is Accepted
    }

    /// Whether the verdict is in favour: only where the service took the
    /// credentials.
    pub fn passes(&self) -> (ok: bool)
        ensures
            ok == self.in_favour(),
    {
        match self {
            Verdict::Accepted => true,
            _ => false,
        }
    }

    /// The verdict for the service's answer, or for the failure to ask it.
    pub fn from_service(answer: Option<bool>) -> (v: Verdict)
        ensures
            v == match answer {
                Some(true) => Verdict::Accepted,
                Some(false) => Verdict::Rejected,
                None => Verdict::InitFailed,
            },
    {
        match answer {
            Some(true) => Verdict::Accepted,
            Some(false) => Verdict::Rejected,
            None => Verdict::InitFailed,
        }
    }
}

/// What can happen to the credential check.
#[derive(Debug, Clone, Copy, PartialEq, Eq, Structural)]
pub enum AuthEvent {
    /// Credentials were submitted.
    Submit,
    /// The worker came back with its verdict.
    Complete(bool),
}

impl AuthState {
    /// Whether a submission in this state starts a worker.
    pub open spec fn accepts(self) -> bool {
        !(self is Running)
    }

    /// The state after an event. A submission leads to `Running`, whether
    /// it starts a worker or finds one; a verdict is taken only from a
    /// worker that is running.
    pub open spec fn after(self, event: AuthEvent) -> AuthState {
        match event {
            AuthEvent::Submit => AuthState::Running,
            AuthEvent::Complete(ok) => if self is Running {
                AuthState::Result(ok)
            } else {
                self
            },
        }
    }

    /// Whether the session may be unlocked.
    pub open spec fn authenticated(self) -> bool {
        self == AuthState::Result(true)
    }

    /// The state before any submission.
    pub fn new() -> (s: AuthState)
        ensures
            s == AuthState::Idle,
    {
        AuthState::Idle
    }

    /// Whether a worker is checking.
    pub fn is_running(&self) -> (r: bool)
        ensures
            r == (*self is Running),
    {
        match self {
            AuthState::Running => true,
            _ => false,
        }
    }

    /// Takes a submission. Returns whether the caller has to start a
    /// worker: never while one is running.
    pub fn submit(&mut self) -> (started: bool)
        ensures
            started == old(self).accepts(),
            *final(self) == old(self).after(AuthEvent::Submit),
    {
        if self.is_running() {
            false
        } else {
            *self = AuthState::Running;
            true
        }
    }

    /// Takes the worker's verdict.
    pub fn complete(&mut self, ok: bool)
        ensures
            *final(self) == old(self).after(AuthEvent::Complete(ok)),
    {
        if self.is_running() {
            *self = AuthState::Result(ok);
        }
    }

    /// Whether the session may be unlocked: only after a verdict in favour.
    pub fn is_authenticated(&self) -> (r: bool)
        ensures
            r == self.authenticated(),
    {
        match self {
            AuthState::Result(ok) => *ok,
            _ => false,
        }
    }
}

/// The state that a sequence of events leaves, from a given state.
pub open spec fn run(start: AuthState, events: Seq<AuthEvent>) -> AuthState
    decreases events.len(),
{
    if events.len() == 0 {
        start
    } else {
        run(start, events.drop_last()).after(events.last())
    }
}

/// The number of workers that a sequence of events leaves in flight: each
/// accepted submission starts one, each verdict that is taken ends one.
pub open spec fn in_flight(start: AuthState, events: Seq<AuthEvent>) -> int
    decreases events.len(),
{
    if events.len() == 0 {
        if start is Running {
            1
        } else {
            0
        }
    } else {
        let before = run(start, events.drop_last());
        let rest = in_flight(start, events.drop_last());
        match events.last() {
            AuthEvent::Submit => if before.accepts() {
                rest + 1
            } else {
                rest
            },
            AuthEvent::Complete(_) => if before is Running {
                rest - 1
            } else {
                rest
            },
        }
    }
}

/// Single flight: whatever is submitted and whenever the verdicts come, at
/// most one worker is in flight, and one is in flight exactly while the
/// state is `Running`.
pub proof fn law_single_flight(start: AuthState, events: Seq<AuthEvent>)
    ensures
        0 <= in_flight(start, events) <= 1,
        in_flight(start, events) == 1 <==> run(start, events) is Running,
    decreases events.len(),
{
    if events.len() > 0 {
        law_single_flight(start, events.drop_last());
    }
}

/// A submission that finds a worker running starts none and leaves the
/// state as it is.
pub proof fn law_submit_while_running(s: AuthState)
    requires
        s is Running,
    ensures
        !s.accepts(),
        s.after(AuthEvent::Submit) == s,
{
}

/// No step leads from `Idle` to a verdict, and a verdict only follows
/// `Running`.
pub proof fn law_verdict_follows_running(s: AuthState, event: AuthEvent)
    ensures
        s.after(event) is Result && !(s is Result) ==> s is Running,
        s.after(event) is Result && s.after(event) != s ==> s is Running,
        s.after(event) is Idle ==> s is Idle,
{
}

} // verus!
