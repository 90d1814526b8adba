//! The bookkeeping of waits on kernel signal objects: a waiter drives one wait
//! at a time, and an unplug future resolves once.

use vstd::prelude::*;
use crate::registry::OsError;

verus! {

/// How a wait ended.
#[derive(Clone, Copy, Debug, PartialEq, Eq, Structural)]
pub enum WaitResult {
    Signaled,
    TimedOut,
}

/// Why a wait could not be started or failed.
#[derive(Clone, Copy, Debug, PartialEq, Eq, Structural)]
pub enum WaitError {
    /// The waiter already drives a wait.
    InProgress,
    Os(OsError),
}

/// What starting a wait gives, on a waiter that is or is not already waiting.
pub open spec fn start_result(waiting: bool) -> Result<(), WaitError> {
    if waiting {
        Err(WaitError::InProgress)
    } else {
        Ok(())
    }
}

/// A waiter: it drives at most one outstanding wait.
#[derive(Debug)]
pub struct EventListener {
    waiting: bool,
}

impl EventListener {
    /// Whether a wait is outstanding.
    pub closed spec fn waiting(&self) -> bool {
        self.waiting
    }

    /// A waiter with no wait outstanding.
    pub fn new() -> (r: EventListener)
        ensures
            !r.waiting(),
    {
        EventListener { waiting: false }
    }

    /// Whether a wait is outstanding.
    pub fn is_waiting(&self) -> (r: bool)
        ensures
            r == self.waiting(),
    {
        self.waiting
    }

    /// Starts a wait; fails with `InProgress` while another one is outstanding.
    pub fn start(&mut self) -> (r: Result<(), WaitError>)
        ensures
            r == start_result(old(self).waiting()),
            final(self).waiting(),
    {
        if self.waiting {
            Err(WaitError::InProgress)
        } else {
            self.waiting = true;
            Ok(())
        }
    }

    /// Starts the next wait once the previous one has completed; fails with
    /// `InProgress` while it is still outstanding.
    pub fn restart(&mut self) -> (r: Result<(), WaitError>)
        ensures
            r == start_result(old(self).waiting()),
            final(self).waiting(),
    {
        self.start()
    }

    /// Records that the outstanding wait completed (or was dropped) and passes its outcome on.
    pub fn complete(&mut self, outcome: Result<WaitResult, WaitError>) -> (r: Result<WaitResult, WaitError>)
        ensures
            r == outcome,
            !final(self).waiting(),
    {
        self.waiting = false;
        outcome
    }
}

/// A waiter that has started a wait refuses a second one with `InProgress`,
/// and accepts a new one once the first has completed.
pub proof fn lemma_wait_in_progress(w: EventListener, started: EventListener, completed: EventListener)
    requires
        !w.waiting(),
        started.waiting(),
        !completed.waiting(),
    ensures
        start_result(w.waiting()) is Ok,
        start_result(started.waiting()) == Err::<(), WaitError>(WaitError::InProgress),
        start_result(completed.waiting()) is Ok,
{
}

/// What polling an unplug future gives.
#[derive(Clone, Copy, Debug)]
pub enum UnplugPoll {
    /// The signal has not fired yet.
    Pending,
    /// The signal fired (or failed): the future's one resolution.
    Ready(Result<(), OsError>),
    /// The future resolved before; it gives nothing more.
    Spent,
}

/// A future that resolves once, when its tracked port is unplugged.
#[derive(Clone, Copy, Debug, PartialEq, Eq, Structural)]
pub enum Unplugged {
    Waiting,
    Complete,
}

impl Unplugged {
    /// The state and the result of one poll, given what the underlying receiver
    /// gave (`None` while it is pending).
    pub open spec fn poll_spec(self, inner: Option<Result<(), OsError>>) -> (Unplugged, UnplugPoll) {
        match self {
            Unplugged::Complete => (Unplugged::Complete, UnplugPoll::Spent),
            Unplugged::Waiting => match inner {
                None => (Unplugged::Waiting, UnplugPoll::Pending),
                Some(x) => (Unplugged::Complete, UnplugPoll::Ready(x)),
            },
        }
    }

    /// Polls the future with what its receiver gave (`None` while pending).
    pub fn poll(&mut self, inner: Option<Result<(), OsError>>) -> (r: UnplugPoll)
        ensures
            (*final(self), r) == old(self).poll_spec(inner),
    {
        match *self {
            Unplugged::Complete => UnplugPoll::Spent,
            Unplugged::Waiting => match inner {
                None => UnplugPoll::Pending,
                Some(x) => {
                    *self = Unplugged::Complete;
                    UnplugPoll::Ready(x)
                },
            },
        }
    }
}

/// An unplug future resolves at most once: once it has given `Ready`, every
/// later poll gives `Spent`, whatever the receiver reports.
pub proof fn lemma_unplugged_resolves_once(
    s: Unplugged,
    first: Option<Result<(), OsError>>,
    later: Option<Result<(), OsError>>,
)
    requires
        s.poll_spec(first).1 is Ready,
    ensures
        s.poll_spec(first).0 == Unplugged::Complete,
        s.poll_spec(first).0.poll_spec(later) == (Unplugged::Complete, UnplugPoll::Spent),
{
}

} // verus!
