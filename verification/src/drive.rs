//! What a drive-step comes to.
//!
//! A drive-step is what happens between a poll by the scheduler and the
//! operation's report back to it. The driver makes each outside call that
//! the operation asks for and hands back the answer. This module says, for
//! every way the outside world can answer, which calls are asked for and
//! what is reported, and proves it of [`Operation::step`].

use crate::operation::{Action, Attempt, Direction, Event, Operation, Phase, Readiness};
use vstd::prelude::*;

verus! {

/// Whether an action hands control back to the scheduler, and so ends the
/// drive-step.
pub open spec fn is_report<T, E>(action: Action<T, E>) -> bool {
    action is Park || action is Finish
}

/// The most outside calls that an operation in this phase can still ask for
/// before it reports to the scheduler.
pub open spec fn calls_left(phase: Phase) -> nat {
    match phase {
        Phase::Parked => 3,
        Phase::Querying => 2,
        Phase::Attempting => 1,
        Phase::Clearing => 0,
        Phase::Finished => 0,
    }
}

/// The answers that the outside world gives in the course of one drive-step.
/// An answer that is never asked for is not looked at.
pub struct Answers<T, E> {
    /// What the registration says of the readiness.
    pub readiness: Readiness<E>,
    /// What the attempt of the call comes to.
    pub attempt: Attempt<T, E>,
    /// What clearing the readiness comes to.
    pub cleared: Result<(), E>,
}

impl<T, E> Answers<T, E> {
    /// The event that answers an outside call.
    pub open spec fn answer_to(self, call: Action<T, E>) -> Event<T, E>
        recommends
            !is_report(call),
    {
        match call {
            Action::QueryReadiness(_) => Event::Readiness(self.readiness),
            Action::Attempt => Event::Attempted(self.attempt),
            _ => Event::Cleared(self.cleared),
        }
    }

    /// What the drive-step reports to the scheduler: "not ready" where the
    /// socket is not ready or the attempt would block, else the result of
    /// the attempt, or the error of whichever call failed first.
    pub open spec fn report(self) -> Action<T, E> {
        match self.readiness {
            Readiness::NotReady => Action::Park,
            Readiness::Failed(e) => Action::Finish(Err(e)),
            Readiness::Ready => match self.attempt {
                Attempt::Done(v) => Action::Finish(Ok(v)),
                Attempt::Failed(e) => Action::Finish(Err(e)),
                Attempt::WouldBlock => match self.cleared {
                    Ok(_) => Action::Park,
                    Err(e) => Action::Finish(Err(e)),
                },
            },
        }
    }

    /// The outside calls of the drive-step, in order: a readiness query of
    /// the given half, then one attempt where that half is ready, then a
    /// clearing of that half where the attempt would block.
    pub open spec fn calls(self, direction: Direction) -> Seq<Action<T, E>> {
        let query = Action::<T, E>::QueryReadiness(direction);
        let clear = Action::<T, E>::ClearReadiness(direction);
        if !(self.readiness is Ready) {
            seq![query]
        } else if !(self.attempt is WouldBlock) {
            seq![query, Action::Attempt]
        } else {
            seq![query, Action::Attempt, clear]
        }
    }

    /// Whether the drive-step ends without a result: the socket is not
    /// ready, or its readiness was stale and has been cleared.
    pub open spec fn is_idle(self) -> bool {
        self.report() is Park
    }
}

/// What becomes of `op`, and which actions it answers with, when it is
/// handed `event` and then, for each outside call that it asks for, the
/// answer to that call, up to and including its report to the scheduler.
pub open spec fn run<T, E>(op: Operation, event: Event<T, E>, answers: Answers<T, E>) -> (
    Operation,
    Seq<Action<T, E>>,
)
    decreases calls_left(op.phase),
{
    if !op.expects(event) {
        (op, seq![])
    } else if is_report(op.action(event)) {
        (op.after(event), seq![op.action(event)])
    } else {
        let rest = run(op.after(event), answers.answer_to(op.action(event)), answers);
        (rest.0, seq![op.action(event)] + rest.1)
    }
}

/// What becomes of `op` when it is polled once for each of `rounds`, and
/// answered in each drive-step as that round says.
pub open spec fn run_all<T, E>(op: Operation, rounds: Seq<Answers<T, E>>) -> Operation
    decreases rounds.len(),
{
    if rounds.len() == 0 {
        op
    } else {
        run(run_all(op, rounds.drop_last()), Event::Polled, rounds.last()).0
    }
}

/// An operation that is polled while its half of the socket is not ready
/// reports "not ready" without attempting the call, and waits to be polled
/// again.
pub proof fn lemma_not_ready_parks<T, E>(op: Operation)
    requires
        op.phase == Phase::Parked,
    ensures
        op.action(Event::<T, E>::Polled) == Action::<T, E>::QueryReadiness(op.direction),
        op.after(Event::<T, E>::Polled).action(Event::<T, E>::Readiness(Readiness::NotReady))
            == Action::<T, E>::Park,
        op.after(Event::<T, E>::Polled).after(Event::<T, E>::Readiness(Readiness::NotReady))
            == op,
{
}

/// An operation completes with a value only when an attempt of the call
/// succeeded, and then with exactly the value that the attempt returned.
pub proof fn lemma_completion_is_the_attempts_value<T, E>(
    op: Operation,
    event: Event<T, E>,
    value: T,
)
    requires
        op.expects(event),
        op.action(event) == Action::<T, E>::Finish(Ok(value)),
    ensures
        op.phase == Phase::Attempting,
        event == Event::<T, E>::Attempted(Attempt::Done(value)),
{
}

/// An operation completes with an error exactly when the readiness query,
/// the attempt or the clearing failed with it. The error is handed on as it
/// came, and an attempt that would block is never the cause.
pub proof fn lemma_errors_pass_through<T, E>(op: Operation, event: Event<T, E>, error: E)
    requires
        op.expects(event),
    ensures
        op.action(event) == Action::<T, E>::Finish(Err(error)) <==> (event == Event::<
            T,
            E,
        >::Readiness(Readiness::Failed(error)) || event == Event::<T, E>::Attempted(
            Attempt::Failed(error),
        ) || event == Event::<T, E>::Cleared(Err(error))),
{
}

/// The readiness is cleared exactly when an attempt would block, and for the
/// operation's own half of the socket. Once it is cleared the operation
/// reports "not ready" and waits to be polled again.
pub proof fn lemma_would_block_is_absorbed<T, E>(op: Operation, event: Event<T, E>)
    requires
        op.expects(event),
    ensures
        op.action(event) is ClearReadiness <==> event == Event::<T, E>::Attempted(
            Attempt::WouldBlock,
        ),
        op.action(event) is ClearReadiness ==> {
            &&& op.action(event) == Action::<T, E>::ClearReadiness(op.direction)
            &&& op.after(event).action(Event::<T, E>::Cleared(Ok(()))) == Action::<T, E>::Park
            &&& op.after(event).after(Event::<T, E>::Cleared(Ok(()))).phase == Phase::Parked
        },
{
}

/// Every answer to an expected event either reports to the scheduler or
/// uses up one of the outside calls that are left, of which a parked
/// operation has three: no drive-step goes round in a loop.
pub proof fn lemma_drive_step_is_bounded<T, E>(op: Operation, event: Event<T, E>)
    requires
        op.expects(event),
    ensures
        is_report(op.action(event)) || calls_left(op.after(event).phase) + 1 == calls_left(
            op.phase,
        ),
        is_report(op.action(event)) <==> (op.after(event).phase == Phase::Parked || op.after(
            event,
        ).phase == Phase::Finished),
{
}

/// A finished operation accepts no event, and nothing makes it leave that
/// phase.
pub proof fn lemma_finished_is_final<T, E>(op: Operation, event: Event<T, E>)
    requires
        op.phase == Phase::Finished,
    ensures
        !op.expects(event),
        op.after(event) == op,
{
}

/// One drive-step of a parked operation asks for the calls that the answers
/// lead to, each once and in order, and then reports. After a report of
/// "not ready" the operation is parked as before; after a completion it is
/// finished.
pub proof fn lemma_drive_step<T, E>(op: Operation, answers: Answers<T, E>)
    requires
        op.phase == Phase::Parked,
    ensures
        run(op, Event::Polled, answers).1 == answers.calls(op.direction).push(answers.report()),
        run(op, Event::Polled, answers).0 == (if answers.is_idle() {
            op
        } else {
            Operation { direction: op.direction, phase: Phase::Finished }
        }),
{
    reveal_with_fuel(run, 5);
    assert(run(op, Event::Polled, answers).1 =~= answers.calls(op.direction).push(
        answers.report(),
    ));
}

/// However often an operation is polled while the socket is not ready, or
/// while its readiness turns out stale, it stays parked: nothing completes
/// it and nothing fails it.
pub proof fn lemma_idle_rounds_change_nothing<T, E>(op: Operation, rounds: Seq<Answers<T, E>>)
    requires
        op.phase == Phase::Parked,
        forall|i: int| 0 <= i < rounds.len() ==> (#[trigger] rounds[i]).is_idle(),
    ensures
        run_all(op, rounds) == op,
    decreases rounds.len(),
{
    if rounds.len() > 0 {
        lemma_idle_rounds_change_nothing(op, rounds.drop_last());
        lemma_drive_step(op, rounds.last());
    }
}

/// An operation completes in the first drive-step that is not idle, with
/// the report of that step, and is then finished for good: later polls are
/// not accepted and change nothing.
pub proof fn lemma_first_result_is_final<T, E>(
    op: Operation,
    idle: Seq<Answers<T, E>>,
    decisive: Answers<T, E>,
    later: Seq<Answers<T, E>>,
)
    requires
        op.phase == Phase::Parked,
        forall|i: int| 0 <= i < idle.len() ==> (#[trigger] idle[i]).is_idle(),
        !decisive.is_idle(),
    ensures
        run(run_all(op, idle), Event::Polled, decisive).1.last() == decisive.report(),
        decisive.report() is Finish,
        run_all(op, idle.push(decisive) + later) == (Operation {
            direction: op.direction,
            phase: Phase::Finished,
        }),
    decreases later.len(),
{
    let finished = Operation { direction: op.direction, phase: Phase::Finished };
    lemma_idle_rounds_change_nothing(op, idle);
    lemma_drive_step(op, decisive);
    let rounds = idle.push(decisive) + later;
    if later.len() == 0 {
        assert(rounds =~= idle.push(decisive));
        assert(rounds.drop_last() =~= idle);
    } else {
        lemma_first_result_is_final(op, idle, decisive, later.drop_last());
        assert(rounds.drop_last() =~= idle.push(decisive) + later.drop_last());
        assert(rounds.last() == later.last());
        assert(!finished.expects(Event::<T, E>::Polled));
    }
}

} // verus!
