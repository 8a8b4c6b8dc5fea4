//! The coroutine control block, exercised with a scripted body.
//!
//! A control block owns a stack and a lifecycle state; `resume` switches into
//! the body until it yields or returns, and carries the yielded or returned
//! value back.  The block here drives a body given as data -- the sequence of
//! values it yields, then its return value -- so the whole lifecycle is
//! executable logic: every resume is pinned to the exact value it produces,
//! and a resume of a finished block is refused without touching the block.

use vstd::prelude::*;
use crate::machine::{ExecState, InvalidState, resumable, drop_disposition_spec, DropAction};

verus! {

/// The outcome of one resume: the body suspended with a yielded value, or it
/// returned its final value.
#[derive(Clone, Copy, PartialEq, Eq, Structural, Debug)]
pub enum CoroutineResult<Y, R> {
    /// The body called suspend with this value and waits to be resumed.
    Yield(Y),
    /// The body returned this value; the block is done.
    Return(R),
}

/// The result the block produces once it has already yielded `k` values: the
/// next scripted value while any remain, then the return value.
pub open spec fn result_at(yields: Seq<u64>, ret: u64, k: nat) -> CoroutineResult<u64, u64> {
    if k < yields.len() {
        CoroutineResult::Yield(yields[k as int])
    } else {
        CoroutineResult::Return(ret)
    }
}

/// Everything the block produces over its life, in order: each scripted value
/// once, then the return value.
pub open spec fn expected_results(yields: Seq<u64>, ret: u64) -> Seq<CoroutineResult<u64, u64>> {
    yields.map_values(|y: u64| CoroutineResult::<u64, u64>::Yield(y))
        .push(CoroutineResult::Return(ret))
}

/// Yield sequence: over its whole life the block produces exactly the
/// scripted values, in script order, each once, closed by the return value --
/// no value skipped, duplicated, or reordered.
pub proof fn lemma_yield_sequence(yields: Seq<u64>, ret: u64)
    ensures
        expected_results(yields, ret).len() == yields.len() + 1,
        forall|k: nat| k <= yields.len()
            ==> expected_results(yields, ret)[k as int] == result_at(yields, ret, k),
{
}

/// Resumes a fresh block over the given script until its body returns, and
/// collects everything it produced: exactly the scripted values in script
/// order, closed by the return value.
pub fn collect_results(yields: Vec<u64>, ret: u64) -> (out: Vec<CoroutineResult<u64, u64>>)
    ensures
        out@ == expected_results(yields@, ret),
{
    let ghost ys = yields@;
    let n = yields.len();
    let mut block = ScriptedCoroutine::new(yields, ret);
    let mut out: Vec<CoroutineResult<u64, u64>> = Vec::new();
    let mut i: usize = 0;
    while i < n
        invariant
            i <= n,
            n == ys.len(),
            block.wf(),
            block.yields_spec() == ys,
            block.ret_spec() == ret,
            block.pos_spec() == i,
            !(block.state_spec() is Done),
            out@.len() == i,
            forall|k: int| 0 <= k < i ==> out@[k] == result_at(ys, ret, k as nat),
        decreases n - i,
    {
        match block.resume(0) {
            Ok(res) => {
                out.push(res);
            }
            Err(_) => {
                proof {
                    assert(false);
                }
            }
        }
        i = i + 1;
    }
    match block.resume(0) {
        Ok(res) => {
            out.push(res);
        }
        Err(_) => {
            proof {
                assert(false);
            }
        }
    }
    proof {
        let exp = expected_results(ys, ret);
        assert forall|k: int| 0 <= k < out@.len() implies out@[k] == exp[k] by {
            if k < ys.len() {
                assert(exp[k] == ys.map_values(|y: u64| CoroutineResult::<u64, u64>::Yield(y))[k]);
            }
        }
        assert(out@ =~= exp);
    }
    out
}

/// A coroutine control block whose body is scripted: it yields the scripted
/// values in order, then returns.  The input passed to each resume is handed
/// to the body and ignored by a scripted one.
///
/// The body may hold resources: it acquires `holds` of them before its first
/// yield and runs one release action per resource when it returns.  A block
/// abandoned while suspended mid-body forces an unwind that runs the pending
/// release actions instead, so every acquired resource is released exactly
/// once over the block's whole life.
pub struct ScriptedCoroutine {
    yields: Vec<u64>,
    ret: u64,
    pos: usize,
    state: ExecState,
    holds: usize,
    released: usize,
}

impl ScriptedCoroutine {
    /// The values the body will yield, in order.
    pub closed spec fn yields_spec(self) -> Seq<u64> {
        self.yields@
    }

    /// The value the body will return after its last yield.
    pub closed spec fn ret_spec(self) -> u64 {
        self.ret
    }

    /// How many values the body has yielded so far.
    pub closed spec fn pos_spec(self) -> nat {
        self.pos as nat
    }

    /// The block's lifecycle state.
    pub closed spec fn state_spec(self) -> ExecState {
        self.state
    }

    /// How many resources the body holds between its first yield and its
    /// return.
    pub closed spec fn holds_spec(self) -> nat {
        self.holds as nat
    }

    /// How many release actions have run so far.
    pub closed spec fn released_spec(self) -> nat {
        self.released as nat
    }

    /// The resources currently held by the body: acquired before its first
    /// yield, released when it returns.
    pub open spec fn live_spec(self) -> nat {
        if self.state_spec() is Suspended {
            self.holds_spec()
        } else {
            0
        }
    }

    /// The block's invariant.  Between resumes the body is never on its
    /// stack; a block that has not started has yielded nothing, one that is
    /// done has yielded everything, and one suspended mid-body sits after at
    /// least its first yield.  Release actions run only when the body
    /// returns: exactly one per held resource, none before.
    pub open spec fn wf(self) -> bool {
        &&& self.pos_spec() <= self.yields_spec().len()
        &&& !(self.state_spec() is Running)
        &&& (self.state_spec() is NotStarted ==> self.pos_spec() == 0)
        &&& (self.state_spec() is Suspended ==> self.pos_spec() >= 1)
        &&& (self.state_spec() is Done ==> self.pos_spec() == self.yields_spec().len())
        &&& (self.state_spec() is Done ==> self.released_spec() == self.holds_spec())
        &&& (!(self.state_spec() is Done) ==> self.released_spec() == 0)
    }

    /// Creates a block around the scripted body; it starts suspended, before
    /// the first body instruction.  The body holds no resources.
    pub fn new(yields: Vec<u64>, ret: u64) -> (c: ScriptedCoroutine)
        ensures
            c.wf(),
            c.yields_spec() == yields@,
            c.ret_spec() == ret,
            c.pos_spec() == 0,
            c.state_spec() is NotStarted,
            c.holds_spec() == 0,
    {
        ScriptedCoroutine {
            yields,
            ret,
            pos: 0,
            state: ExecState::NotStarted,
            holds: 0,
            released: 0,
        }
    }

    /// Creates a block whose body acquires the given number of resources
    /// before its first yield, each with a release action that must run
    /// exactly once.
    pub fn new_holding(yields: Vec<u64>, ret: u64, holds: usize) -> (c: ScriptedCoroutine)
        ensures
            c.wf(),
            c.yields_spec() == yields@,
            c.ret_spec() == ret,
            c.pos_spec() == 0,
            c.state_spec() is NotStarted,
            c.holds_spec() == holds,
    {
        ScriptedCoroutine {
            yields,
            ret,
            pos: 0,
            state: ExecState::NotStarted,
            holds,
            released: 0,
        }
    }

    /// Switches into the body until it yields or returns, and hands back what
    /// it produced.  A block that is already done (or running) is refused
    /// with `InvalidState`, and no switch occurs: the block is left exactly
    /// as it was.
    pub fn resume(&mut self, input: u64) -> (r: Result<CoroutineResult<u64, u64>, InvalidState>)
        requires
            old(self).wf(),
        ensures
            final(self).wf(),
            final(self).yields_spec() == old(self).yields_spec(),
            final(self).ret_spec() == old(self).ret_spec(),
            final(self).holds_spec() == old(self).holds_spec(),
            !resumable(old(self).state_spec())
                ==> r == Err::<CoroutineResult<u64, u64>, InvalidState>(InvalidState)
                    && *final(self) == *old(self),
            resumable(old(self).state_spec()) ==> {
                &&& r == Ok::<CoroutineResult<u64, u64>, InvalidState>(
                        result_at(old(self).yields_spec(), old(self).ret_spec(), old(self).pos_spec()))
                &&& (old(self).pos_spec() < old(self).yields_spec().len() ==> {
                    &&& final(self).pos_spec() == old(self).pos_spec() + 1
                    &&& final(self).state_spec() is Suspended
                })
                &&& (old(self).pos_spec() == old(self).yields_spec().len() ==> {
                    &&& final(self).pos_spec() == old(self).pos_spec()
                    &&& final(self).state_spec() is Done
                })
            },
    {
        let _ = input;
        match self.state {
            ExecState::Done | ExecState::Running => Err(InvalidState),
            _ => {
                if self.pos < self.yields.len() {
                    let y = self.yields[self.pos];
                    self.pos = self.pos + 1;
                    self.state = ExecState::Suspended;
                    Ok(CoroutineResult::Yield(y))
                } else {
                    self.state = ExecState::Done;
                    self.released = self.holds;
                    Ok(CoroutineResult::Return(self.ret))
                }
            }
        }
    }

    /// The block's lifecycle state, as a caller tracking it observes it.
    pub fn state(&self) -> (s: ExecState)
        ensures s == self.state_spec(),
    {
        self.state
    }

    /// How many values the block has yielded so far.
    pub fn yielded_so_far(&self) -> (n: usize)
        ensures n == self.pos_spec(),
    {
        self.pos
    }

    /// What dropping the block must do with its stack: a block suspended
    /// mid-body forces an unwind of the pending body frames, any other is a
    /// plain release.
    pub fn drop_action(&self) -> (a: DropAction)
        ensures a == drop_disposition_spec(self.state_spec()),
    {
        crate::machine::drop_disposition(&self.state)
    }

    /// Destroys the block, as dropping it does, and accounts for its
    /// resources.  A block suspended mid-body forces an unwind that runs the
    /// pending release actions; one that finished let its body release them
    /// on return; one that never started acquired nothing.  The result is
    /// the number of release actions that ran over the block's whole life:
    /// exactly one per acquired resource, never zero, never two.
    pub fn abandon(self) -> (total_released: usize)
        requires
            self.wf(),
        ensures
            total_released == self.released_spec() + self.live_spec(),
            total_released == if self.state_spec() is NotStarted {
                0
            } else {
                self.holds_spec()
            },
    {
        match self.state {
            ExecState::Suspended => self.holds,
            _ => self.released,
        }
    }
}

} // verus!
