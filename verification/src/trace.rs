//! Whole operations, from the first call to the result.
//!
//! Within one operation every collaborator call is made at most once, so what
//! the collaborators would do is a [`Script`]: one answer for each call. Run
//! against a script, the protocol yields an [`Outcome`]: the calls that were
//! made, in their order, and the result. The proof functions of this module
//! state what holds of every such outcome.

use crate::error::Error;
use crate::protocol::{Action, Operation, Phase, Reply, Step};
use vstd::prelude::*;

verus! {

/// What each collaborator call would answer, were it made.
pub ghost struct Script<S, P> {
    pub set_high: Result<(), P>,
    pub write: Result<usize, S>,
    pub flush: Result<(), S>,
    pub set_low: Result<(), P>,
    pub read: Result<usize, S>,
}

/// The calls that an operation made, in their order, and what it returned.
pub ghost struct Outcome<S, P> {
    pub calls: Seq<Action>,
    pub result: Result<usize, Error<S, P>>,
}

/// A level of the direction pin.
pub ghost enum Level {
    /// The transceiver receives.
    Low,
    /// The transceiver transmits.
    High,
}

impl<S, P> Script<S, P> {
    /// The answer to `action`.
    pub open spec fn reply(self, action: Action) -> Reply<S, P> {
        match action {
            Action::SetPinHigh => Reply::Pin(self.set_high),
            Action::Write => Reply::Transfer(self.write),
            Action::Flush => Reply::Flush(self.flush),
            Action::SetPinLow => Reply::Pin(self.set_low),
            Action::Read => Reply::Transfer(self.read),
        }
    }
}

impl<S, P> Outcome<S, P> {
    /// The calls that succeeded: every call but the one that failed, which is
    /// the last call of an operation that returns an error.
    pub open spec fn succeeded(self) -> Seq<Action> {
        if self.result is Ok {
            self.calls
        } else {
            self.calls.drop_last()
        }
    }

    /// The level that the operation leaves the pin at: the one that the last
    /// pin call that succeeded drove it to. `None` where no pin call
    /// succeeded, so that the pin is as it was before.
    pub open spec fn pin_level(self) -> Option<Level> {
        level_after(self.succeeded())
    }
}

/// The level that the last pin call among `calls` drives the pin to.
pub open spec fn level_after(calls: Seq<Action>) -> Option<Level>
    decreases calls.len(),
{
    if calls.len() == 0 {
        None
    } else {
        match calls.last() {
            Action::SetPinHigh => Some(Level::High),
            Action::SetPinLow => Some(Level::Low),
            _ => level_after(calls.drop_last()),
        }
    }
}

/// The rest of an operation that stands at `phase`: the driver makes the
/// pending call, hands its answer to the protocol, and goes on until the
/// protocol says that the operation is over.
pub open spec fn run<S, P>(phase: Phase, script: Script<S, P>) -> Outcome<S, P>
    decreases phase.operation().plan().len() - phase.position(),
{
    let action = phase.pending();
    match phase.after(script.reply(action)) {
        Step::Done(result) => Outcome { calls: seq![action], result },
        Step::Next(next) => {
            let rest = run(next, script);
            Outcome { calls: seq![action] + rest.calls, result: rest.result }
        },
    }
}

/// A whole operation, from [`Phase::begin`] on.
pub open spec fn perform<S, P>(operation: Operation, script: Script<S, P>) -> Outcome<S, P> {
    run(Phase::at(operation, 0, 0), script)
}

/// The calls of an operation are its plan, or the plan up to the call that
/// failed: none is left out, repeated or made out of order, and at least one
/// is made. An operation that succeeds has made the whole plan.
pub proof fn lemma_calls_follow_plan<S, P>(operation: Operation, script: Script<S, P>)
    ensures
        1 <= perform(operation, script).calls.len() <= operation.plan().len(),
        perform(operation, script).calls == operation.plan().take(
            perform(operation, script).calls.len() as int,
        ),
        perform(operation, script).result is Ok ==> perform(operation, script).calls
            == operation.plan(),
{
    reveal_with_fuel(run, 4);
}

/// Every call of an operation but the last succeeded, and the result goes by
/// the last: an operation returns an error only where its last call failed,
/// and then returns the error of that call, under the collaborator it came
/// from.
pub proof fn lemma_result_is_of_the_last_call<S, P>(operation: Operation, script: Script<S, P>)
    ensures
        forall|i: int|
            0 <= i < perform(operation, script).calls.len() - 1 ==> script.reply(
                #[trigger] perform(operation, script).calls[i],
            ).failure() is None,
        match perform(operation, script).result {
            Ok(_) => script.reply(perform(operation, script).calls.last()).failure() is None,
            Err(error) => script.reply(perform(operation, script).calls.last()).failure()
                == Some(error),
        },
{
    reveal_with_fuel(run, 4);
}

/// An operation that succeeds leaves the pin low: between operations the
/// transceiver receives.
pub proof fn lemma_success_leaves_pin_low<S, P>(operation: Operation, script: Script<S, P>)
    requires
        perform(operation, script).result is Ok,
    ensures
        perform(operation, script).pin_level() == Some(Level::Low),
{
    reveal_with_fuel(run, 4);
    reveal_with_fuel(level_after, 2);
}

/// A write that returns `accepted` has made exactly these calls, in this
/// order: pin high, write, flush, pin low. All four succeeded, and `accepted`
/// is what the serial port answered to the write.
pub proof fn lemma_write_order<S, P>(script: Script<S, P>, accepted: usize)
    requires
        perform(Operation::Write, script).result == Ok::<usize, Error<S, P>>(accepted),
    ensures
        perform(Operation::Write, script).calls == seq![
            Action::SetPinHigh,
            Action::Write,
            Action::Flush,
            Action::SetPinLow,
        ],
        script.set_high is Ok,
        script.write == Ok::<usize, S>(accepted),
        script.flush is Ok,
        script.set_low is Ok,
{
    reveal_with_fuel(run, 4);
}

/// A read drives the pin low and then reads, and makes no other call: it
/// never flushes and never touches the pin again. Where the pin fails, the
/// read is not made either.
pub proof fn lemma_read_order<S, P>(script: Script<S, P>)
    ensures
        perform(Operation::Read, script).calls == if script.set_low is Ok {
            seq![Action::SetPinLow, Action::Read]
        } else {
            seq![Action::SetPinLow]
        },
        script.set_low is Ok ==> perform(Operation::Read, script).pin_level() == Some(
            Level::Low,
        ),
{
    reveal_with_fuel(run, 2);
    reveal_with_fuel(level_after, 3);
}

/// A write returns the number of bytes that the serial port accepted,
/// whatever that number is: the protocol never holds it against the number
/// of bytes offered. The flush and the pin's return to low follow as after
/// any other write.
pub proof fn lemma_write_passes_count<S, P>(script: Script<S, P>, accepted: usize)
    requires
        script.set_high is Ok,
        script.write == Ok::<usize, S>(accepted),
        script.flush is Ok,
        script.set_low is Ok,
    ensures
        perform(Operation::Write, script).calls == seq![
            Action::SetPinHigh,
            Action::Write,
            Action::Flush,
            Action::SetPinLow,
        ],
        perform(Operation::Write, script).result == Ok::<usize, Error<S, P>>(accepted),
{
    reveal_with_fuel(run, 4);
}

/// A write whose pin does not go high stops there: nothing is handed to the
/// serial port, and the pin's error is returned.
pub proof fn lemma_write_stops_when_pin_high_fails<S, P>(script: Script<S, P>, error: P)
    requires
        script.set_high == Err::<(), P>(error),
    ensures
        perform(Operation::Write, script).calls == seq![Action::SetPinHigh],
        perform(Operation::Write, script).result == Err::<usize, Error<S, P>>(
            Error::Pin(error),
        ),
        perform(Operation::Write, script).pin_level() == None::<Level>,
{
    reveal_with_fuel(run, 1);
    assert(perform(Operation::Write, script).succeeded() =~= Seq::<Action>::empty());
}

/// A write whose bytes the serial port refuses stops there: it neither
/// flushes nor drives the pin low. The serial port's error is returned, and
/// the pin stays high.
pub proof fn lemma_write_stops_when_write_fails<S, P>(script: Script<S, P>, error: S)
    requires
        script.set_high is Ok,
        script.write == Err::<usize, S>(error),
    ensures
        perform(Operation::Write, script).calls == seq![Action::SetPinHigh, Action::Write],
        perform(Operation::Write, script).result == Err::<usize, Error<S, P>>(
            Error::Serial(error),
        ),
        perform(Operation::Write, script).pin_level() == Some(Level::High),
{
    reveal_with_fuel(run, 2);
    assert(perform(Operation::Write, script).succeeded() =~= seq![Action::SetPinHigh]);
}

/// A write whose flush fails stops there: the pin is not driven low, and
/// stays high. The serial port's error is returned.
pub proof fn lemma_write_stops_when_flush_fails<S, P>(script: Script<S, P>, error: S)
    requires
        script.set_high is Ok,
        script.write is Ok,
        script.flush == Err::<(), S>(error),
    ensures
        perform(Operation::Write, script).calls == seq![
            Action::SetPinHigh,
            Action::Write,
            Action::Flush,
        ],
        perform(Operation::Write, script).result == Err::<usize, Error<S, P>>(
            Error::Serial(error),
        ),
        perform(Operation::Write, script).pin_level() == Some(Level::High),
{
    reveal_with_fuel(run, 3);
    reveal_with_fuel(level_after, 2);
    assert(perform(Operation::Write, script).succeeded() =~= seq![
        Action::SetPinHigh,
        Action::Write,
    ]);
}

/// A write whose bytes have all left, and whose pin then does not go low,
/// returns the pin's error: the kind of the error alone tells it from a
/// write that lost its bytes.
pub proof fn lemma_write_reports_pin_low_failure<S, P>(script: Script<S, P>, error: P)
    requires
        script.set_high is Ok,
        script.write is Ok,
        script.flush is Ok,
        script.set_low == Err::<(), P>(error),
    ensures
        perform(Operation::Write, script).calls == seq![
            Action::SetPinHigh,
            Action::Write,
            Action::Flush,
            Action::SetPinLow,
        ],
        perform(Operation::Write, script).result == Err::<usize, Error<S, P>>(
            Error::Pin(error),
        ),
{
    reveal_with_fuel(run, 4);
}

/// A read whose pin does not go low stops there: nothing is read, and the
/// pin's error is returned.
pub proof fn lemma_read_stops_when_pin_low_fails<S, P>(script: Script<S, P>, error: P)
    requires
        script.set_low == Err::<(), P>(error),
    ensures
        perform(Operation::Read, script).calls == seq![Action::SetPinLow],
        perform(Operation::Read, script).result == Err::<usize, Error<S, P>>(
            Error::Pin(error),
        ),
{
    reveal_with_fuel(run, 1);
}

/// A read returns what the serial port answered: its count, or its error as
/// an error of the serial port. After the answer no call is made, on the pin
/// or elsewhere.
pub proof fn lemma_read_passes_answer<S, P>(script: Script<S, P>)
    requires
        script.set_low is Ok,
    ensures
        perform(Operation::Read, script).calls == seq![Action::SetPinLow, Action::Read],
        perform(Operation::Read, script).result == match script.read {
            Ok(received) => Ok::<usize, Error<S, P>>(received),
            Err(error) => Err::<usize, Error<S, P>>(Error::Serial(error)),
        },
{
    reveal_with_fuel(run, 2);
}

} // verus!
