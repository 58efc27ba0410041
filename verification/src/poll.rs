use vstd::prelude::*;

verus! {

/// How many times a watcher is asked before the query gives up.
pub const MAX_ATTEMPTS: u32 = 5;

/// The pause, in milliseconds, after the `failures + 1`-th refused request:
/// one second, doubling after each refusal.
pub open spec fn backoff_delay(failures: nat) -> nat
    decreases failures,
{
    if failures == 0 {
        1000
    } else {
        2 * backoff_delay((failures - 1) as nat)
    }
}

/// Where a watcher query stands.
#[derive(Clone, Copy, Debug, PartialEq, Eq, Structural)]
pub enum PollPhase {
    /// No request is out; the next step is decided by `next`.
    Ready,
    /// A request is out; its status goes to `on_status`.
    Awaiting,
    /// The watcher answered with success.
    Answered,
    /// Every attempt was refused.
    Exhausted,
}

/// What the query's driver does next.
#[derive(Clone, Copy, Debug, PartialEq, Eq, Structural)]
pub enum PollAction {
    /// Send the query to the watcher.
    Send,
    /// Read the body of the successful answer; it is the query's result.
    ReadBody,
    /// Pause this many milliseconds.
    Wait(u32),
    /// Stop: the query's result is the empty text.
    GiveUp,
}

/// Retry schedule of a query to a watcher: at most five requests, with a
/// pause of one second after the first refusal that doubles after each
/// further one.
pub struct Backoff {
    sent: u32,
    delay_ms: u32,
    phase: PollPhase,
}

impl View for Backoff {
    type V = (nat, nat, PollPhase);

    /// Requests sent, the pause that the next refusal brings, and the phase.
    closed spec fn view(&self) -> (nat, nat, PollPhase) {
        (self.sent as nat, self.delay_ms as nat, self.phase)
    }
}

impl Backoff {
    /// Refused requests so far.
    pub open spec fn failures(&self) -> nat {
        if self@.2 == PollPhase::Awaiting || self@.2 == PollPhase::Answered {
            (self@.0 - 1) as nat
        } else {
            self@.0
        }
    }

    /// The schedule's invariant: at most five requests, and the pause kept
    /// is the one that the refusals so far call for.
    pub open spec fn wf(&self) -> bool {
        &&& self@.0 <= MAX_ATTEMPTS
        &&& (self@.2 == PollPhase::Awaiting || self@.2 == PollPhase::Answered) ==> self@.0 >= 1
        &&& self@.2 == PollPhase::Exhausted ==> self@.0 == MAX_ATTEMPTS
        &&& self@.1 == backoff_delay(self.failures())
    }

    /// A query that has sent nothing yet.
    pub fn new() -> (b: Backoff)
        ensures
            b.wf(),
            b@ == (0nat, 1000nat, PollPhase::Ready),
    {
        Backoff { sent: 0, delay_ms: 1000, phase: PollPhase::Ready }
    }

    /// Decides whether to send another request.
    pub fn next(&mut self) -> (a: PollAction)
        requires
            old(self).wf(),
            old(self)@.2 == PollPhase::Ready,
        ensures
            final(self).wf(),
            old(self)@.0 < MAX_ATTEMPTS ==> a == PollAction::Send
                && final(self)@ == (old(self)@.0 + 1, old(self)@.1, PollPhase::Awaiting),
            old(self)@.0 >= MAX_ATTEMPTS ==> a == PollAction::GiveUp
                && final(self)@ == (old(self)@.0, old(self)@.1, PollPhase::Exhausted),
    {
        if self.sent < MAX_ATTEMPTS {
            self.sent = self.sent + 1;
            self.phase = PollPhase::Awaiting;
            PollAction::Send
        } else {
            self.phase = PollPhase::Exhausted;
            PollAction::GiveUp
        }
    }

    /// Takes the HTTP status of the answer to the request that is out.
    pub fn on_status(&mut self, status: u16) -> (a: PollAction)
        requires
            old(self).wf(),
            old(self)@.2 == PollPhase::Awaiting,
        ensures
            final(self).wf(),
            status == 200 ==> a == PollAction::ReadBody
                && final(self)@ == (old(self)@.0, old(self)@.1, PollPhase::Answered),
            status != 200 ==> a == PollAction::Wait(old(self)@.1 as u32)
                && final(self)@ == (old(self)@.0, 2 * old(self)@.1, PollPhase::Ready),
            status != 200 ==> old(self)@.1 == backoff_delay((old(self)@.0 - 1) as nat),
    {
        if status == 200 {
            self.phase = PollPhase::Answered;
            PollAction::ReadBody
        } else {
            proof {
                lemma_backoff_bounded(self.failures());
            }
            let d = self.delay_ms;
            self.delay_ms = d * 2;
            self.phase = PollPhase::Ready;
            PollAction::Wait(d)
        }
    }
}

proof fn lemma_backoff_bounded(failures: nat)
    requires
        failures < MAX_ATTEMPTS,
    ensures
        backoff_delay(failures) <= 16000,
        backoff_delay(failures + 1) == 2 * backoff_delay(failures),
{
    reveal_with_fuel(backoff_delay, 6);
}

} // verus!
