use max485::protocol::{Action, Operation, Phase, Reply, Step};
use max485::Error;

type Port = u8;
type Pin = u16;

fn next(step: Step<Port, Pin>) -> Phase {
    match step {
        Step::Next(phase) => phase,
        Step::Done(result) => panic!("the operation ended with {:?}", result),
    }
}

fn done(step: Step<Port, Pin>) -> Result<usize, Error<Port, Pin>> {
    match step {
        Step::Next(phase) => panic!("the operation went on to {:?}", phase),
        Step::Done(result) => result,
    }
}

#[test]
fn write_begins_by_raising_the_pin() {
    let phase = Phase::begin(Operation::Write);
    assert_eq!(phase, Phase::Enable);
    assert_eq!(phase.action(), Action::SetPinHigh);
}

#[test]
fn read_begins_by_lowering_the_pin() {
    let phase = Phase::begin(Operation::Read);
    assert_eq!(phase, Phase::Listen);
    assert_eq!(phase.action(), Action::SetPinLow);
}

#[test]
fn each_phase_names_its_call() {
    assert_eq!(Phase::Enable.action(), Action::SetPinHigh);
    assert_eq!(Phase::Send.action(), Action::Write);
    assert_eq!(Phase::Drain { accepted: 3 }.action(), Action::Flush);
    assert_eq!(Phase::Release { accepted: 3 }.action(), Action::SetPinLow);
    assert_eq!(Phase::Listen.action(), Action::SetPinLow);
    assert_eq!(Phase::Receive.action(), Action::Read);
}

#[test]
fn write_walks_through_its_four_phases() {
    let phase = Phase::begin(Operation::Write);
    let phase = next(phase.advance(Reply::Pin(Ok(()))));
    assert_eq!(phase, Phase::Send);
    let phase = next(phase.advance(Reply::Transfer(Ok(12))));
    assert_eq!(phase, Phase::Drain { accepted: 12 });
    let phase = next(phase.advance(Reply::Flush(Ok(()))));
    assert_eq!(phase, Phase::Release { accepted: 12 });
    let result = done(phase.advance(Reply::Pin(Ok(()))));
    assert!(matches!(result, Ok(12)));
}

#[test]
fn read_walks_through_its_two_phases() {
    let phase = Phase::begin(Operation::Read);
    let phase = next(phase.advance(Reply::Pin(Ok(()))));
    assert_eq!(phase, Phase::Receive);
    let result = done(phase.advance(Reply::Transfer(Ok(5))));
    assert!(matches!(result, Ok(5)));
}

#[test]
fn a_count_of_zero_is_passed_on() {
    let result = done(Phase::Release { accepted: 0 }.advance(Reply::Pin(Ok(()))));
    assert!(matches!(result, Ok(0)));
    let result = done(Phase::Receive.advance(Reply::Transfer(Ok(0))));
    assert!(matches!(result, Ok(0)));
}

#[test]
fn the_largest_count_is_passed_on() {
    let phase = next(Phase::Send.advance(Reply::Transfer(Ok(usize::MAX))));
    let phase = next(phase.advance(Reply::Flush(Ok(()))));
    let result = done(phase.advance(Reply::Pin(Ok(()))));
    assert!(matches!(result, Ok(usize::MAX)));
}

#[test]
fn a_pin_failure_ends_the_operation_as_a_pin_error() {
    let result = done(Phase::Enable.advance(Reply::Pin(Err(40))));
    assert!(matches!(result, Err(Error::Pin(40))));
    let result = done(Phase::Release { accepted: 9 }.advance(Reply::Pin(Err(41))));
    assert!(matches!(result, Err(Error::Pin(41))));
    let result = done(Phase::Listen.advance(Reply::Pin(Err(42))));
    assert!(matches!(result, Err(Error::Pin(42))));
}

#[test]
fn a_serial_failure_ends_the_operation_as_a_serial_error() {
    let result = done(Phase::Send.advance(Reply::Transfer(Err(50))));
    assert!(matches!(result, Err(Error::Serial(50))));
    let result = done(Phase::Drain { accepted: 9 }.advance(Reply::Flush(Err(51))));
    assert!(matches!(result, Err(Error::Serial(51))));
    let result = done(Phase::Receive.advance(Reply::Transfer(Err(52))));
    assert!(matches!(result, Err(Error::Serial(52))));
}

#[test]
fn an_answer_to_another_call_leaves_the_phase() {
    let phases = [
        Phase::Enable,
        Phase::Release { accepted: 4 },
        Phase::Listen,
    ];
    for phase in phases {
        assert_eq!(next(phase.advance(Reply::Transfer(Ok(1)))), phase);
        assert_eq!(next(phase.advance(Reply::Transfer(Err(1)))), phase);
        assert_eq!(next(phase.advance(Reply::Flush(Ok(())))), phase);
        assert_eq!(next(phase.advance(Reply::Flush(Err(1)))), phase);
    }
    for phase in [Phase::Send, Phase::Receive] {
        assert_eq!(next(phase.advance(Reply::Pin(Ok(())))), phase);
        assert_eq!(next(phase.advance(Reply::Pin(Err(1)))), phase);
        assert_eq!(next(phase.advance(Reply::Flush(Ok(())))), phase);
        assert_eq!(next(phase.advance(Reply::Flush(Err(1)))), phase);
    }
    let phase = Phase::Drain { accepted: 4 };
    assert_eq!(next(phase.advance(Reply::Pin(Ok(())))), phase);
    assert_eq!(next(phase.advance(Reply::Pin(Err(1)))), phase);
    assert_eq!(next(phase.advance(Reply::Transfer(Ok(1)))), phase);
    assert_eq!(next(phase.advance(Reply::Transfer(Err(1)))), phase);
}
