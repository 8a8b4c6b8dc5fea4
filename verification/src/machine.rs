//! The lifecycle state machine of a coroutine control block.
//!
//! A block is created suspended, runs when resumed, suspends again at each
//! yield, and is done once its body returns.  The rules here decide which
//! transitions are legal and what dropping a block in each state must do;
//! the engine performs no switch on an illegal resume.

use vstd::prelude::*;

verus! {

/// Error returned when `resume` is called on a block that is not suspended:
/// the block is already running or already done, and no switch occurs.
#[derive(Clone, Copy, PartialEq, Eq, Structural, Debug)]
pub struct InvalidState;

/// The lifecycle of a coroutine control block.
#[derive(Clone, Copy, PartialEq, Eq, Structural, Debug)]
pub enum ExecState {
    /// Created but never resumed: suspended before the first body instruction.
    NotStarted,
    /// The body is on its stack between a resume and the next suspend.
    Running,
    /// The body is suspended at a yield point, ready to be resumed.
    Suspended,
    /// The body has returned; the block can only be dropped.
    Done,
}

/// A resume is legal exactly when the block is suspended, whether it has not
/// yet started or sits at a yield point mid-body.
pub open spec fn resumable(s: ExecState) -> bool {
    s is NotStarted || s is Suspended
}

/// Decides whether a resume may switch into the block's stack.
pub fn can_resume(s: &ExecState) -> (r: bool)
    ensures r == resumable(*s),
{
    matches!(s, ExecState::NotStarted | ExecState::Suspended)
}

/// The transition a resume performs: a suspended block starts running; a
/// running or finished block is refused and left exactly as it was.
pub fn resume_transition(s: &ExecState) -> (r: Result<ExecState, InvalidState>)
    ensures
        resumable(*s) ==> r == Ok::<ExecState, InvalidState>(ExecState::Running),
        !resumable(*s) ==> r == Err::<ExecState, InvalidState>(InvalidState),
{
    if can_resume(s) {
        Ok(ExecState::Running)
    } else {
        Err(InvalidState)
    }
}

/// The transition a yield performs: only a running body can suspend, and it
/// becomes suspended at that yield point.
pub fn suspend_transition(s: &ExecState) -> (r: ExecState)
    requires *s is Running,
    ensures r is Suspended,
{
    ExecState::Suspended
}

/// The transition the body's return performs: a running body finishes and the
/// block is done.
pub fn finish_transition(s: &ExecState) -> (r: ExecState)
    requires *s is Running,
    ensures r is Done,
{
    ExecState::Done
}

/// What dropping a control block must do with the stack.
#[derive(Clone, Copy, PartialEq, Eq, Structural, Debug)]
pub enum DropAction {
    /// Release the stack; no body frame is pending on it.
    Release,
    /// Unwind the pending body frames down to the last yield point, running
    /// their cleanup, then release the stack.
    ForcedUnwind,
}

/// Dropping a block suspended mid-body must force an unwind of the pending
/// frames so every live local is cleaned up; a block that never started or
/// already finished has no pending frame and its stack is plainly released.
pub open spec fn drop_disposition_spec(s: ExecState) -> DropAction {
    if s is Suspended {
        DropAction::ForcedUnwind
    } else {
        DropAction::Release
    }
}

/// Decides what dropping a block in the given state must do.
pub fn drop_disposition(s: &ExecState) -> (a: DropAction)
    ensures a == drop_disposition_spec(*s),
{
    match s {
        ExecState::Suspended => DropAction::ForcedUnwind,
        _ => DropAction::Release,
    }
}

} // verus!
