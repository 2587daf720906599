use vstd::prelude::*;

verus! {

/// What one poll of a submitted call finds.
#[derive(Debug, Clone, PartialEq, Eq)]
pub enum CallStatus {
    /// Still in flight.
    Pending,
    /// Done, with the reply's bytes.
    Completed(Vec<u8>),
    /// Refused by the platform, with its reason.
    Rejected(String),
}

/// What the waiter decides after a poll.
#[derive(Debug, Clone, PartialEq, Eq)]
pub enum WaitStep {
    /// Poll again after this many milliseconds.
    PollAfter(u64),
    /// The call completed with these bytes.
    Completed(Vec<u8>),
    /// The platform rejected the call for this reason.
    Rejected(String),
    /// The deadline leaves no room for another poll: waiting stops here,
    /// while the call itself may still run.
    Abandoned,
}

/// Waits for a submitted call: a fixed interval between polls, up to a
/// deadline, counted from the submission.
#[derive(Debug, Clone, Copy, PartialEq, Eq, Structural)]
pub struct Waiter {
    pub throttle_ms: u64,
    pub timeout_ms: u64,
    pub elapsed_ms: u64,
    pub polls: u64,
    pub finished: bool,
}

impl Waiter {
    /// The time waited so far never passes the deadline.
    pub open spec fn wf(&self) -> bool {
        self.elapsed_ms <= self.timeout_ms
    }
}

/// A waiter that has not polled yet.
pub open spec fn fresh(w: Waiter, throttle_ms: u64, timeout_ms: u64) -> bool {
    &&& w.throttle_ms == throttle_ms
    &&& w.timeout_ms == timeout_ms
    &&& w.elapsed_ms == 0
    &&& w.polls == 0
    &&& !w.finished
}

/// The waiter after it observes a status, and what it decides.
pub open spec fn observe_spec(w: Waiter, status: CallStatus) -> (Waiter, WaitStep) {
    let polled = Waiter { polls: (w.polls + 1) as u64, ..w };
    match status {
        CallStatus::Pending => if w.elapsed_ms + w.throttle_ms <= w.timeout_ms {
            (
                Waiter { elapsed_ms: (w.elapsed_ms + w.throttle_ms) as u64, ..polled },
                WaitStep::PollAfter(w.throttle_ms),
            )
        } else {
            (Waiter { finished: true, ..polled }, WaitStep::Abandoned)
        },
        CallStatus::Completed(bytes) => (Waiter { finished: true, ..polled }, WaitStep::Completed(bytes)),
        CallStatus::Rejected(reason) => (Waiter { finished: true, ..polled }, WaitStep::Rejected(reason)),
    }
}

impl Waiter {
    /// A waiter that polls every `throttle_ms` until `timeout_ms` have passed.
    pub fn new(throttle_ms: u64, timeout_ms: u64) -> (r: Waiter)
        ensures
            fresh(r, throttle_ms, timeout_ms),
            r.wf(),
    {
        Waiter { throttle_ms, timeout_ms, elapsed_ms: 0, polls: 0, finished: false }
    }

    /// Half a second between polls, five minutes in all.
    pub fn standard() -> (r: Waiter)
        ensures
            fresh(r, 500, 300_000),
    {
        Waiter::new(500, 300_000)
    }

    /// Whether the waiter has seen a terminal status or given up.
    pub fn is_finished(&self) -> (r: bool)
        ensures
            r == self.finished,
    {
        self.finished
    }

    /// Takes in the status that one poll found and decides what comes next.
    /// A finished waiter polls no more.
    pub fn observe(&mut self, status: CallStatus) -> (r: WaitStep)
        requires
            !old(self).finished,
            old(self).polls < u64::MAX,
        ensures
            (*final(self), r) == observe_spec(*old(self), status),
            old(self).wf() ==> final(self).wf(),
    {
        self.polls = self.polls + 1;
        match status {
            CallStatus::Pending => {
                if self.throttle_ms <= self.timeout_ms && self.elapsed_ms <= self.timeout_ms - self.throttle_ms {
                    self.elapsed_ms = self.elapsed_ms + self.throttle_ms;
                    WaitStep::PollAfter(self.throttle_ms)
                } else {
                    self.finished = true;
                    WaitStep::Abandoned
                }
            },
            CallStatus::Completed(bytes) => {
                self.finished = true;
                WaitStep::Completed(bytes)
            },
            CallStatus::Rejected(reason) => {
                self.finished = true;
                WaitStep::Rejected(reason)
            },
        }
    }
}

/// A terminal status ends the wait: the waiter hands it on and is finished.
pub proof fn lemma_terminal_is_final(w: Waiter, status: CallStatus)
    requires
        !(status is Pending),
    ensures
        observe_spec(w, status).0.finished,
        !(observe_spec(w, status).1 is PollAfter),
{
}

/// Two pending polls and then a completion: the waiter returns exactly the
/// completed bytes, after exactly three polls, and polls no more.
pub proof fn lemma_two_pending_then_completed(w: Waiter, bytes: Vec<u8>)
    requires
        !w.finished,
        w.polls + 3 <= u64::MAX,
        w.elapsed_ms + 2 * w.throttle_ms <= w.timeout_ms,
    ensures
        ({
            let (w1, s1) = observe_spec(w, CallStatus::Pending);
            let (w2, s2) = observe_spec(w1, CallStatus::Pending);
            let (w3, s3) = observe_spec(w2, CallStatus::Completed(bytes));
            &&& s1 == WaitStep::PollAfter(w.throttle_ms)
            &&& s2 == WaitStep::PollAfter(w.throttle_ms)
            &&& !w1.finished && !w2.finished
            &&& s3 == WaitStep::Completed(bytes)
            &&& w3.polls == w.polls + 3
            &&& w3.finished
        }),
{
}

} // verus!
