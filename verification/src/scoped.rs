//! The scoped coroutine control block: the same state machine as the owning
//! block, but its body borrows the script from the creator for a bounded
//! lifetime instead of owning a copy, and the block cannot outlive what it
//! borrows.  The first entry into the body is `run`, legal only before the
//! body has started; every later entry is `resume`.

use vstd::prelude::*;
use vstd::slice::slice_index_get;
use crate::coroutine::{result_at, CoroutineResult};
use crate::machine::{resumable, ExecState, InvalidState};

verus! {

/// A coroutine control block over a scripted body that borrows its script --
/// the values to yield, in order -- from the creator.
pub struct ScopedScriptedCoroutine<'a> {
    yields: &'a [u64],
    ret: u64,
    pos: usize,
    state: ExecState,
}

impl<'a> ScopedScriptedCoroutine<'a> {
    /// The values the body will yield, in order.
    pub closed spec fn yields_spec(self) -> Seq<u64> {
        self.yields@
    }

    /// The value the body will return after its last yield.
    pub closed spec fn ret_spec(self) -> u64 {
        self.ret
    }

    /// How many values the body has yielded so far.
    pub closed spec fn pos_spec(self) -> nat {
        self.pos as nat
    }

    /// The block's lifecycle state.
    pub closed spec fn state_spec(self) -> ExecState {
        self.state
    }

    /// The block's invariant, the same as for the owning block: between
    /// resumes the body is never on its stack, and the count of yielded
    /// values agrees with the lifecycle state.
    pub open spec fn wf(self) -> bool {
        &&& self.pos_spec() <= self.yields_spec().len()
        &&& !(self.state_spec() is Running)
        &&& (self.state_spec() is NotStarted ==> self.pos_spec() == 0)
        &&& (self.state_spec() is Suspended ==> self.pos_spec() >= 1)
        &&& (self.state_spec() is Done ==> self.pos_spec() == self.yields_spec().len())
    }

    /// Creates a block whose body borrows the given script; it starts
    /// suspended, before the first body instruction.
    pub fn new(yields: &'a [u64], ret: u64) -> (c: ScopedScriptedCoroutine<'a>)
        ensures
            c.wf(),
            c.yields_spec() == yields@,
            c.ret_spec() == ret,
            c.pos_spec() == 0,
            c.state_spec() is NotStarted,
    {
        ScopedScriptedCoroutine { yields, ret, pos: 0, state: ExecState::NotStarted }
    }

    /// First entry into the body: legal only on a block that has not yet
    /// started.  A block that has already run is refused with `InvalidState`
    /// and left exactly as it was.
    pub fn run(&mut self, input: u64) -> (r: Result<CoroutineResult<u64, u64>, InvalidState>)
        requires
            old(self).wf(),
        ensures
            final(self).wf(),
            final(self).yields_spec() == old(self).yields_spec(),
            final(self).ret_spec() == old(self).ret_spec(),
            !(old(self).state_spec() is NotStarted)
                ==> r == Err::<CoroutineResult<u64, u64>, InvalidState>(InvalidState)
                    && *final(self) == *old(self),
            old(self).state_spec() is NotStarted ==> {
                &&& r == Ok::<CoroutineResult<u64, u64>, InvalidState>(
                        result_at(old(self).yields_spec(), old(self).ret_spec(), 0))
                &&& (old(self).yields_spec().len() > 0 ==> {
                    &&& final(self).pos_spec() == 1
                    &&& final(self).state_spec() is Suspended
                })
                &&& (old(self).yields_spec().len() == 0 ==> {
                    &&& final(self).pos_spec() == 0
                    &&& final(self).state_spec() is Done
                })
            },
    {
        match self.state {
            ExecState::NotStarted => self.resume(input),
            _ => Err(InvalidState),
        }
    }

    /// Switches into the body until it yields or returns, exactly as the
    /// owning block does: a block that is already done (or running) is
    /// refused with `InvalidState` and left exactly as it was.
    pub fn resume(&mut self, input: u64) -> (r: Result<CoroutineResult<u64, u64>, InvalidState>)
        requires
            old(self).wf(),
        ensures
            final(self).wf(),
            final(self).yields_spec() == old(self).yields_spec(),
            final(self).ret_spec() == old(self).ret_spec(),
            !resumable(old(self).state_spec())
                ==> r == Err::<CoroutineResult<u64, u64>, InvalidState>(InvalidState)
                    && *final(self) == *old(self),
            resumable(old(self).state_spec()) ==> {
                &&& r == Ok::<CoroutineResult<u64, u64>, InvalidState>(
                        result_at(old(self).yields_spec(), old(self).ret_spec(), old(self).pos_spec()))
                &&& (old(self).pos_spec() < old(self).yields_spec().len() ==> {
                    &&& final(self).pos_spec() == old(self).pos_spec() + 1
                    &&& final(self).state_spec() is Suspended
                })
                &&& (old(self).pos_spec() == old(self).yields_spec().len() ==> {
                    &&& final(self).pos_spec() == old(self).pos_spec()
                    &&& final(self).state_spec() is Done
                })
            },
    {
        let _ = input;
        match self.state {
            ExecState::Done | ExecState::Running => Err(InvalidState),
            _ => {
                if self.pos < self.yields.len() {
                    let y = *slice_index_get(self.yields, self.pos);
                    self.pos = self.pos + 1;
                    self.state = ExecState::Suspended;
                    Ok(CoroutineResult::Yield(y))
                } else {
                    self.state = ExecState::Done;
                    Ok(CoroutineResult::Return(self.ret))
                }
            }
        }
    }

    /// The block's lifecycle state, as a caller tracking it observes it.
    pub fn state(&self) -> (s: ExecState)
        ensures s == self.state_spec(),
    {
        self.state
    }
}

} // verus!
