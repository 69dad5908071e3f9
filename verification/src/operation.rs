//! A single-shot operation on a non-blocking socket, as a state machine.
//!
//! One drive-step starts when the scheduler polls the operation. The
//! operation asks for the readiness of its half of the socket; when that is
//! ready it asks for exactly one attempt of the call; the attempt either
//! completes the operation, fails it, or would block, in which case the
//! readiness is cleared and the operation is parked until the next wake.

use vstd::prelude::*;

verus! {

/// The half of a socket's readiness that an operation waits on.
#[derive(Clone, Copy, Debug, PartialEq, Eq)]
pub enum Direction {
    /// Data can be received.
    Read,
    /// Data can be sent.
    Write,
}

/// Where an operation stands between two events.
#[derive(Clone, Copy, Debug, PartialEq, Eq)]
pub enum Phase {
    /// Waiting for the scheduler to poll it. Every operation starts here and
    /// comes back here each time it reports "not ready".
    Parked,
    /// A readiness query is outstanding.
    Querying,
    /// One attempt of the call is outstanding.
    Attempting,
    /// The request to clear the readiness is outstanding.
    Clearing,
    /// Completion was reported. Nothing is accepted any more.
    Finished,
}

/// The registration's answer to a readiness query.
#[derive(Debug, PartialEq, Eq)]
pub enum Readiness<E> {
    /// No readiness is recorded; the task will be woken on a change.
    NotReady,
    /// The descriptor was reported ready. The report may be stale.
    Ready,
    /// The registration itself failed.
    Failed(E),
}

/// What one non-blocking attempt of the call came to.
#[derive(Debug, PartialEq, Eq)]
pub enum Attempt<T, E> {
    /// The call succeeded with this value.
    Done(T),
    /// The call could not proceed without blocking.
    WouldBlock,
    /// The call failed for any other reason.
    Failed(E),
}

/// What the outside world hands to an operation.
#[derive(Debug, PartialEq, Eq)]
pub enum Event<T, E> {
    /// The scheduler polls the operation.
    Polled,
    /// The readiness query was answered.
    Readiness(Readiness<E>),
    /// The attempt returned.
    Attempted(Attempt<T, E>),
    /// The request to clear the readiness returned.
    Cleared(Result<(), E>),
}

/// What an operation asks of its driver in answer to an event.
#[derive(Debug, PartialEq, Eq)]
pub enum Action<T, E> {
    /// Ask the registration whether this half of the socket is ready.
    QueryReadiness(Direction),
    /// Issue the call once, without blocking.
    Attempt,
    /// Clear the recorded readiness of this half, so that the next change
    /// wakes the task.
    ClearReadiness(Direction),
    /// Report "not ready" to the scheduler. Ends the drive-step.
    Park,
    /// Report completion with this result. Ends the operation.
    Finish(Result<T, E>),
}

/// The progress of one send or receive operation.
#[derive(Clone, Copy, Debug, PartialEq, Eq)]
pub struct Operation {
    /// The half of the socket this operation waits on.
    pub direction: Direction,
    /// Where the operation stands.
    pub phase: Phase,
}

impl Operation {
    /// Whether `event` is the one that the operation waits for.
    pub open spec fn expects<T, E>(self, event: Event<T, E>) -> bool {
        match (self.phase, event) {
            (Phase::Parked, Event::Polled) => true,
            (Phase::Querying, Event::Readiness(_)) => true,
            (Phase::Attempting, Event::Attempted(_)) => true,
            (Phase::Clearing, Event::Cleared(_)) => true,
            _ => false,
        }
    }

    /// The action that answers an expected event.
    pub open spec fn action<T, E>(self, event: Event<T, E>) -> Action<T, E>
        recommends
            self.expects(event),
    {
        match event {
            Event::Polled => Action::QueryReadiness(self.direction),
            Event::Readiness(Readiness::NotReady) => Action::Park,
            Event::Readiness(Readiness::Ready) => Action::Attempt,
            Event::Readiness(Readiness::Failed(e)) => Action::Finish(Err(e)),
            Event::Attempted(Attempt::Done(v)) => Action::Finish(Ok(v)),
            Event::Attempted(Attempt::WouldBlock) => Action::ClearReadiness(self.direction),
            Event::Attempted(Attempt::Failed(e)) => Action::Finish(Err(e)),
            Event::Cleared(Ok(_)) => Action::Park,
            Event::Cleared(Err(e)) => Action::Finish(Err(e)),
        }
    }

    /// The operation after `event`: moved on when the event was expected,
    /// unchanged when it was not.
    pub open spec fn after<T, E>(self, event: Event<T, E>) -> Operation {
        if self.expects(event) {
            Operation { direction: self.direction, phase: phase_after(self.action(event)) }
        } else {
            self
        }
    }

    /// A new operation on the given half of a socket, not yet polled.
    pub fn new(direction: Direction) -> (op: Operation)
        ensures
            op == (Operation { direction, phase: Phase::Parked }),
    {
        Operation { direction, phase: Phase::Parked }
    }

    /// Takes one event and says what to do next.
    ///
    /// An expected event moves the operation on and is answered by an
    /// action. Any other event is handed back and changes nothing.
    pub fn step<T, E>(&mut self, event: Event<T, E>) -> (r: Result<Action<T, E>, Event<T, E>>)
        ensures
            *final(self) == old(self).after(event),
            old(self).expects(event) ==> r == Ok::<Action<T, E>, Event<T, E>>(
                old(self).action(event),
            ),
            !old(self).expects(event) ==> r == Err::<Action<T, E>, Event<T, E>>(event),
    {
        let action = match (self.phase, event) {
            (Phase::Parked, Event::Polled) => Action::QueryReadiness(self.direction),
            (Phase::Querying, Event::Readiness(Readiness::NotReady)) => Action::Park,
            (Phase::Querying, Event::Readiness(Readiness::Ready)) => Action::Attempt,
            (Phase::Querying, Event::Readiness(Readiness::Failed(e))) => Action::Finish(Err(e)),
            (Phase::Attempting, Event::Attempted(Attempt::Done(v))) => Action::Finish(Ok(v)),
            (Phase::Attempting, Event::Attempted(Attempt::WouldBlock)) => Action::ClearReadiness(
                self.direction,
            ),
            (Phase::Attempting, Event::Attempted(Attempt::Failed(e))) => Action::Finish(Err(e)),
            (Phase::Clearing, Event::Cleared(Ok(_))) => Action::Park,
            (Phase::Clearing, Event::Cleared(Err(e))) => Action::Finish(Err(e)),
            (_, event) => {
                return Err(event);
            },
        };
        self.phase = match action {
            Action::QueryReadiness(_) => Phase::Querying,
            Action::Attempt => Phase::Attempting,
            Action::ClearReadiness(_) => Phase::Clearing,
            Action::Park => Phase::Parked,
            Action::Finish(_) => Phase::Finished,
        };
        Ok(action)
    }
}

/// The phase that an action leaves the operation in.
pub open spec fn phase_after<T, E>(action: Action<T, E>) -> Phase {
    match action {
        Action::QueryReadiness(_) => Phase::Querying,
        Action::Attempt => Phase::Attempting,
        Action::ClearReadiness(_) => Phase::Clearing,
        Action::Park => Phase::Parked,
        Action::Finish(_) => Phase::Finished,
    }
}

} // verus!
