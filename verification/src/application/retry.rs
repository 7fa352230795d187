use vstd::prelude::*;

verus! {

/// What to do after a connection attempt failed.
#[derive(Debug, Clone, Copy, PartialEq, Eq, Structural)]
pub enum ConnectStep {
    /// Wait, then try again.
    Retry,
    /// Stop trying: the peer stays unavailable.
    GiveUp,
}

/// Counts the failed attempts to connect to a peer, up to a limit.
pub struct ConnectRetry {
    attempts: u32,
    max_retry: u32,
}

/// After `attempts` failed attempts, whether to try again.
pub open spec fn retries_after(attempts: int, max_retry: u32) -> bool {
    attempts < max_retry
}

impl ConnectRetry {
    /// Failed attempts so far.
    pub closed spec fn failures(&self) -> u32 {
        self.attempts
    }

    /// The number of failed attempts after which the peer is given up.
    pub closed spec fn limit(&self) -> u32 {
        self.max_retry
    }

    /// The counter still allows a further attempt.
    pub open spec fn wf(&self) -> bool {
        self.failures() == 0 || retries_after(self.failures() as int, self.limit())
    }

    /// No attempt has failed yet.
    pub fn new(max_retry: u32) -> (r: ConnectRetry)
        ensures
            r.wf(),
            r.failures() == 0,
            r.limit() == max_retry,
    {
        ConnectRetry { attempts: 0, max_retry }
    }

    /// The number of failed attempts so far.
    pub fn attempts(&self) -> (n: u32)
        ensures
            n == self.failures(),
    {
        self.attempts
    }

    /// Counts one more failed attempt and says whether to try again.
    pub fn on_failure(&mut self) -> (step: ConnectStep)
        requires
            old(self).wf(),
        ensures
            final(self).failures() == old(self).failures() + 1,
            final(self).limit() == old(self).limit(),
            step == (if retries_after(final(self).failures() as int, final(self).limit()) {
                ConnectStep::Retry
            } else {
                ConnectStep::GiveUp
            }),
            step == ConnectStep::Retry ==> final(self).wf(),
    {
        self.attempts = self.attempts + 1;
        if self.attempts >= self.max_retry {
            ConnectStep::GiveUp
        } else {
            ConnectStep::Retry
        }
    }
}

} // verus!
