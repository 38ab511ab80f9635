//! The mode-switching protocol of a half-duplex RS-485 transceiver.
//!
//! An operation is a fixed plan of calls on the two collaborators, the serial
//! port and the direction pin. The calls themselves suspend and may fail, so
//! they are made by a driver outside this module. What is decided here is the
//! order of the calls, where an operation stops, and what it returns.
//!
//! A driver starts with [`Phase::begin`], performs the call that
//! [`Phase::action`] names, and hands the collaborator's answer to
//! [`Phase::advance`], until that returns [`Step::Done`].

use crate::error::Error;
use vstd::prelude::*;

verus! {

/// The two operations of the transceiver.
#[derive(Clone, Copy, Debug, PartialEq, Eq, Structural)]
pub enum Operation {
    /// Send bytes to the bus.
    Write,
    /// Receive bytes from the bus.
    Read,
}

/// One call on a collaborator.
#[derive(Clone, Copy, Debug, PartialEq, Eq, Structural)]
pub enum Action {
    /// Drive the direction pin high: the transceiver transmits.
    SetPinHigh,
    /// Hand the caller's bytes to the serial port.
    Write,
    /// Wait until the serial port has sent all it was given.
    Flush,
    /// Drive the direction pin low: the transceiver receives.
    SetPinLow,
    /// Fill the caller's buffer from the serial port.
    Read,
}

/// What a collaborator answered to a call.
#[derive(Debug)]
pub enum Reply<S, P> {
    /// The answer of the direction pin to `SetPinHigh` or `SetPinLow`.
    Pin(Result<(), P>),
    /// The answer of the serial port to `Write` or `Read`: a number of bytes.
    Transfer(Result<usize, S>),
    /// The answer of the serial port to `Flush`.
    Flush(Result<(), S>),
}

/// How far an operation has come: which call is to be made next.
#[derive(Clone, Copy, Debug, PartialEq, Eq, Structural)]
pub enum Phase {
    /// A write that has made no call yet.
    Enable,
    /// A write whose pin is high and whose bytes are not yet handed over.
    Send,
    /// A write whose bytes the serial port has accepted but not yet sent out.
    Drain { accepted: usize },
    /// A write whose bytes have left, with the pin still high.
    Release { accepted: usize },
    /// A read that has made no call yet.
    Listen,
    /// A read whose pin is low.
    Receive,
}

/// What an operation has come to after an answer.
#[derive(Debug)]
pub enum Step<S, P> {
    /// The operation goes on from this phase.
    Next(Phase),
    /// The operation is over and returns this.
    Done(Result<usize, Error<S, P>>),
}

impl Operation {
    /// The calls of an operation that meets no failure, in their order.
    pub open spec fn plan(self) -> Seq<Action> {
        match self {
            Operation::Write => seq![
                Action::SetPinHigh,
                Action::Write,
                Action::Flush,
                Action::SetPinLow,
            ],
            Operation::Read => seq![Action::SetPinLow, Action::Read],
        }
    }
}

impl<S, P> Reply<S, P> {
    /// Whether this is an answer that `action` can get.
    pub open spec fn answers(self, action: Action) -> bool {
        match self {
            Reply::Pin(_) => action == Action::SetPinHigh || action == Action::SetPinLow,
            Reply::Transfer(_) => action == Action::Write || action == Action::Read,
            Reply::Flush(_) => action == Action::Flush,
        }
    }

    /// The failure that the answer reports, under the collaborator it came
    /// from; `None` for a success.
    pub open spec fn failure(self) -> Option<Error<S, P>> {
        match self {
            Reply::Pin(Err(e)) => Some(Error::Pin(e)),
            Reply::Transfer(Err(e)) => Some(Error::Serial(e)),
            Reply::Flush(Err(e)) => Some(Error::Serial(e)),
            _ => None,
        }
    }

    /// The number of bytes that the answer reports, where it reports one.
    pub open spec fn transferred(self) -> Option<usize> {
        match self {
            Reply::Transfer(Ok(n)) => Some(n),
            _ => None,
        }
    }
}

impl Phase {
    /// The operation that this phase belongs to.
    pub open spec fn operation(self) -> Operation {
        match self {
            Phase::Enable | Phase::Send | Phase::Drain { .. } | Phase::Release { .. } => {
                Operation::Write
            },
            Phase::Listen | Phase::Receive => Operation::Read,
        }
    }

    /// The number of calls of the plan that have been made and have succeeded.
    pub open spec fn position(self) -> nat {
        match self {
            Phase::Enable | Phase::Listen => 0,
            Phase::Send | Phase::Receive => 1,
            Phase::Drain { .. } => 2,
            Phase::Release { .. } => 3,
        }
    }

    /// The number of bytes that the serial port has reported so far; 0 before
    /// it has reported any.
    pub open spec fn count(self) -> usize {
        match self {
            Phase::Drain { accepted } | Phase::Release { accepted } => accepted,
            _ => 0,
        }
    }

    /// The phase of `operation` in which `position` calls have succeeded and
    /// the serial port has reported `count` bytes.
    pub open spec fn at(operation: Operation, position: nat, count: usize) -> Phase {
        match operation {
            Operation::Write => if position == 0 {
                Phase::Enable
            } else if position == 1 {
                Phase::Send
            } else if position == 2 {
                Phase::Drain { accepted: count }
            } else {
                Phase::Release { accepted: count }
            },
            Operation::Read => if position == 0 {
                Phase::Listen
            } else {
                Phase::Receive
            },
        }
    }

    /// The call that is to be made next: the plan's entry at the position.
    pub open spec fn pending(self) -> Action {
        self.operation().plan()[self.position() as int]
    }

    /// What the operation comes to when `reply` arrives in this phase.
    ///
    /// An answer that the pending call cannot get tells nothing of that call:
    /// the phase stays. A failure ends the operation with the error of the
    /// collaborator that failed. A success moves one call along the plan, and
    /// after the plan's last call ends the operation with the number of bytes
    /// that the serial port reported.
    pub open spec fn after<S, P>(self, reply: Reply<S, P>) -> Step<S, P> {
        if !reply.answers(self.pending()) {
            Step::Next(self)
        } else if let Some(error) = reply.failure() {
            Step::Done(Err(error))
        } else {
            let count = match reply.transferred() {
                Some(n) => n,
                None => self.count(),
            };
            if self.position() + 1 == self.operation().plan().len() {
                Step::Done(Ok(count))
            } else {
                Step::Next(Phase::at(self.operation(), self.position() + 1, count))
            }
        }
    }

    /// A phase is told by its operation, its position and its count, and its
    /// position lies within the plan: a call is always pending.
    pub proof fn lemma_phase_is_told_by_its_model(self)
        ensures
            Phase::at(self.operation(), self.position(), self.count()) == self,
            self.position() < self.operation().plan().len(),
    {
    }

    /// An answer that the pending call can get either fails, and ends the
    /// operation with an error, or succeeds, and then ends the operation with
    /// a count or moves it one call along the plan of the same operation.
    pub proof fn lemma_answer_moves_on<S, P>(self, reply: Reply<S, P>)
        requires
            reply.answers(self.pending()),
        ensures
            match self.after(reply) {
                Step::Done(Err(error)) => reply.failure() == Some(error),
                Step::Done(Ok(_)) => reply.failure() is None,
                Step::Next(next) => {
                    &&& reply.failure() is None
                    &&& next.operation() == self.operation()
                    &&& next.position() == self.position() + 1
                },
            },
    {
    }

    /// Starts an operation. No call has been made yet.
    pub fn begin(operation: Operation) -> (phase: Phase)
        ensures
            phase == Phase::at(operation, 0, 0),
    {
        match operation {
            Operation::Write => Phase::Enable,
            Operation::Read => Phase::Listen,
        }
    }

    /// The call that the driver is to make next.
    pub fn action(&self) -> (action: Action)
        ensures
            action == self.pending(),
    {
        match self {
            Phase::Enable => Action::SetPinHigh,
            Phase::Send => Action::Write,
            Phase::Drain { .. } => Action::Flush,
            Phase::Release { .. } => Action::SetPinLow,
            Phase::Listen => Action::SetPinLow,
            Phase::Receive => Action::Read,
        }
    }

    /// Takes the collaborator's answer to the pending call and says how the
    /// operation goes on.
    pub fn advance<S, P>(self, reply: Reply<S, P>) -> (step: Step<S, P>)
        ensures
            step == self.after(reply),
    {
        match (self, reply) {
            (Phase::Enable, Reply::Pin(Ok(()))) => Step::Next(Phase::Send),
            (Phase::Send, Reply::Transfer(Ok(accepted))) => Step::Next(Phase::Drain { accepted }),
            (Phase::Drain { accepted }, Reply::Flush(Ok(()))) => Step::Next(
                Phase::Release { accepted },
            ),
            (Phase::Release { accepted }, Reply::Pin(Ok(()))) => Step::Done(Ok(accepted)),
            (Phase::Listen, Reply::Pin(Ok(()))) => Step::Next(Phase::Receive),
            (Phase::Receive, Reply::Transfer(Ok(received))) => Step::Done(Ok(received)),
            (Phase::Enable, Reply::Pin(Err(e)))
            | (Phase::Release { .. }, Reply::Pin(Err(e)))
            | (Phase::Listen, Reply::Pin(Err(e))) => Step::Done(Err(Error::Pin(e))),
            (Phase::Send, Reply::Transfer(Err(e)))
            | (Phase::Receive, Reply::Transfer(Err(e)))
            | (Phase::Drain { .. }, Reply::Flush(Err(e))) => Step::Done(Err(Error::Serial(e))),
            (phase, _) => Step::Next(phase),
        }
    }
}

} // verus!
