use stackful::coroutine::{collect_results, CoroutineResult, ScriptedCoroutine};
use stackful::machine::{
    can_resume, drop_disposition, finish_transition, resume_transition, suspend_transition,
    DropAction, ExecState, InvalidState,
};

#[test]
fn yield_sequence_zero_through_four() {
    let mut block = ScriptedCoroutine::new(vec![0, 1, 2, 3, 4], 0);
    for k in 0..5u64 {
        assert_eq!(block.resume(0), Ok(CoroutineResult::Yield(k)));
    }
    assert_eq!(block.resume(0), Ok(CoroutineResult::Return(0)));
}

#[test]
fn collected_trace_is_exactly_the_script() {
    assert_eq!(
        collect_results(vec![0, 1, 2, 3, 4], 0),
        vec![
            CoroutineResult::Yield(0),
            CoroutineResult::Yield(1),
            CoroutineResult::Yield(2),
            CoroutineResult::Yield(3),
            CoroutineResult::Yield(4),
            CoroutineResult::Return(0),
        ]
    );
    assert_eq!(collect_results(Vec::new(), 7), vec![CoroutineResult::Return(7)]);
}

#[test]
fn new_block_is_not_started() {
    let block = ScriptedCoroutine::new(vec![1, 2], 3);
    assert_eq!(block.state(), ExecState::NotStarted);
    assert_eq!(block.yielded_so_far(), 0);
}

#[test]
fn body_without_yields_returns_at_once() {
    let mut block = ScriptedCoroutine::new(Vec::new(), 42);
    assert_eq!(block.resume(7), Ok(CoroutineResult::Return(42)));
    assert_eq!(block.state(), ExecState::Done);
}

#[test]
fn resume_on_done_fails_without_switch() {
    let mut block = ScriptedCoroutine::new(vec![5], 6);
    assert_eq!(block.resume(0), Ok(CoroutineResult::Yield(5)));
    assert_eq!(block.resume(0), Ok(CoroutineResult::Return(6)));
    assert_eq!(block.state(), ExecState::Done);
    let yielded_before = block.yielded_so_far();
    assert_eq!(block.resume(0), Err(InvalidState));
    assert_eq!(block.resume(0), Err(InvalidState));
    assert_eq!(block.yielded_so_far(), yielded_before);
    assert_eq!(block.state(), ExecState::Done);
}

#[test]
fn can_resume_only_when_suspended() {
    assert!(can_resume(&ExecState::NotStarted));
    assert!(can_resume(&ExecState::Suspended));
    assert!(!can_resume(&ExecState::Running));
    assert!(!can_resume(&ExecState::Done));
}

#[test]
fn resume_transition_table() {
    assert_eq!(resume_transition(&ExecState::NotStarted), Ok(ExecState::Running));
    assert_eq!(resume_transition(&ExecState::Suspended), Ok(ExecState::Running));
    assert_eq!(resume_transition(&ExecState::Running), Err(InvalidState));
    assert_eq!(resume_transition(&ExecState::Done), Err(InvalidState));
}

#[test]
fn running_body_suspends_or_finishes() {
    assert_eq!(suspend_transition(&ExecState::Running), ExecState::Suspended);
    assert_eq!(finish_transition(&ExecState::Running), ExecState::Done);
}

#[test]
fn drop_disposition_table() {
    assert_eq!(drop_disposition(&ExecState::NotStarted), DropAction::Release);
    assert_eq!(drop_disposition(&ExecState::Running), DropAction::Release);
    assert_eq!(drop_disposition(&ExecState::Suspended), DropAction::ForcedUnwind);
    assert_eq!(drop_disposition(&ExecState::Done), DropAction::Release);
}

#[test]
fn forced_unwind_releases_held_resource_exactly_once() {
    let mut block = ScriptedCoroutine::new_holding(vec![1, 2, 3], 0, 1);
    assert_eq!(block.resume(0), Ok(CoroutineResult::Yield(1)));
    assert_eq!(block.drop_action(), DropAction::ForcedUnwind);
    assert_eq!(block.abandon(), 1);
}

#[test]
fn normal_return_releases_each_resource_once() {
    let mut block = ScriptedCoroutine::new_holding(vec![9], 0, 3);
    assert_eq!(block.resume(0), Ok(CoroutineResult::Yield(9)));
    assert_eq!(block.resume(0), Ok(CoroutineResult::Return(0)));
    assert_eq!(block.abandon(), 3);
}

#[test]
fn abandoning_a_block_that_never_started_releases_nothing() {
    let block = ScriptedCoroutine::new_holding(vec![1], 0, 5);
    assert_eq!(block.abandon(), 0);
}

#[test]
fn drop_of_mid_body_block_forces_unwind() {
    let mut block = ScriptedCoroutine::new(vec![10, 20], 0);
    assert_eq!(block.drop_action(), DropAction::Release);
    assert_eq!(block.resume(0), Ok(CoroutineResult::Yield(10)));
    assert_eq!(block.drop_action(), DropAction::ForcedUnwind);
    assert_eq!(block.resume(0), Ok(CoroutineResult::Yield(20)));
    assert_eq!(block.drop_action(), DropAction::ForcedUnwind);
    assert_eq!(block.resume(0), Ok(CoroutineResult::Return(0)));
    assert_eq!(block.drop_action(), DropAction::Release);
}
