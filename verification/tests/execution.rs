use neptu::address::Address;
use neptu::error::NeptuError;
use neptu::execution::Execution;
use neptu::instruction::Instruction;

fn step(n: u64) -> Instruction {
    Instruction::TransferSol {
        from: Address::new([1u8; 32]),
        to: Address::new([2u8; 32]),
        lamports: n,
    }
}

#[test]
fn an_empty_plan_is_done_at_once() {
    let mut execution = Execution::new(Vec::new());
    assert_eq!(execution.pending(), None);
    assert_eq!(execution.outcome(), Some(Ok(())));
    execution.record(Err(NeptuError::Overflow));
    assert_eq!(execution.outcome(), Some(Ok(())));
    assert_eq!(execution.count_completed(), 0);
}

#[test]
fn requests_come_in_order_and_the_end_is_ok() {
    let mut execution = Execution::new(vec![step(1), step(2), step(3)]);
    assert_eq!(execution.pending(), Some(step(1)));
    assert_eq!(execution.outcome(), None);
    execution.record(Ok(()));
    assert_eq!(execution.pending(), Some(step(2)));
    assert_eq!(execution.count_completed(), 1);
    execution.record(Ok(()));
    assert_eq!(execution.pending(), Some(step(3)));
    assert_eq!(execution.outcome(), None);
    execution.record(Ok(()));
    assert_eq!(execution.pending(), None);
    assert_eq!(execution.outcome(), Some(Ok(())));
    assert_eq!(execution.count_completed(), 3);
}

#[test]
fn a_failure_ends_the_operation_and_keeps_what_was_done() {
    let mut execution = Execution::new(vec![step(1), step(2), step(3)]);
    execution.record(Ok(()));
    execution.record(Err(NeptuError::InsufficientBalance));
    assert_eq!(execution.pending(), None);
    assert_eq!(execution.outcome(), Some(Err(NeptuError::InsufficientBalance)));
    assert_eq!(execution.count_completed(), 1);
    execution.record(Ok(()));
    execution.record(Err(NeptuError::Unauthorized));
    assert_eq!(execution.pending(), None);
    assert_eq!(execution.outcome(), Some(Err(NeptuError::InsufficientBalance)));
    assert_eq!(execution.count_completed(), 1);
}

#[test]
fn a_report_after_the_end_changes_nothing() {
    let mut execution = Execution::new(vec![step(1)]);
    execution.record(Ok(()));
    execution.record(Err(NeptuError::Unauthorized));
    execution.record(Ok(()));
    assert_eq!(execution.outcome(), Some(Ok(())));
    assert_eq!(execution.count_completed(), 1);
}
