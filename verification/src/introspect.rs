//! Stack-pointer introspection for diagnostics.

use vstd::prelude::*;

verus! {

/// Relies on psm::stack_pointer: returns the stack pointer of the calling
/// context, from the caller's perspective.  The value depends on the machine
/// state at the moment of the call, so nothing is promised of it; it serves
/// diagnostics only and no correctness argument rests on it.
#[verifier::external_body]
pub fn current_stack_ptr() -> usize {
    psm::stack_pointer() as usize
}

} // verus!
