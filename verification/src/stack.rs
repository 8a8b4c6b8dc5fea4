//! Layout of a coroutine stack region.
//!
//! A stack is a contiguous, page-aligned region with an inaccessible guard
//! page at its low end, so that a stack-overflowing write faults immediately
//! instead of silently corrupting adjacent memory.  This module computes and
//! proves the layout: how a requested size rounds up to whole pages, where
//! the guard page sits, and when a request is too large to be laid out at
//! all.  Reserving the region itself is the platform's affair.

use vstd::prelude::*;

verus! {

/// The platform page size the layout is computed against.
pub const PAGE_SIZE: usize = 4096;

/// The usable size of the default stack: one mebibyte.
pub const DEFAULT_STACK_SIZE: usize = 0x100000;

/// Error: the stack region could not be laid out or reserved.
#[derive(Clone, Copy, PartialEq, Eq, Structural, Debug)]
pub struct OutOfMemory;

/// The layout of one coroutine stack region.  Offsets count from the low end
/// of the region: the guard page occupies the first page, the usable stack
/// the rest.
#[derive(Clone, Copy, PartialEq, Eq, Structural, Debug)]
pub struct StackLayout {
    /// Bytes usable as stack, above the guard page.
    pub usable_len: usize,
    /// Total bytes of the region, guard page included.
    pub total_len: usize,
}

impl StackLayout {
    /// A well-formed layout: the usable part is whole pages and sits
    /// immediately above a single guard page.
    pub open spec fn wf(self) -> bool {
        &&& (self.usable_len as nat) % (PAGE_SIZE as nat) == 0
        &&& self.total_len == self.usable_len + PAGE_SIZE
    }

    /// The offsets the guard page covers: the lowest page of the region.
    pub open spec fn guard_contains(self, off: nat) -> bool {
        off < PAGE_SIZE
    }

    /// The offsets usable as stack: everything above the guard page.
    pub open spec fn usable_contains(self, off: nat) -> bool {
        PAGE_SIZE <= off && off < self.total_len
    }
}

/// Every offset of a well-formed region is in the guard page or usable, never
/// both, and the guard page lies immediately below the usable part: a write
/// that runs just past the low end of the usable stack lands in the guard
/// page and faults rather than reaching foreign memory.
pub proof fn lemma_guard_below_usable(l: StackLayout, off: nat)
    requires l.wf(),
    ensures
        off < l.total_len <==> (l.guard_contains(off) || l.usable_contains(off)),
        !(l.guard_contains(off) && l.usable_contains(off)),
{
}

/// Lays out a stack whose usable part holds at least `size` bytes: the size
/// rounds up to whole pages and a guard page is added below.  Fails with
/// `OutOfMemory` exactly when the rounded region does not fit in the address
/// space.
pub fn layout_for(size: usize) -> (r: Result<StackLayout, OutOfMemory>)
    ensures
        r is Ok <==> size <= usize::MAX - 2 * PAGE_SIZE + 1,
        (r matches Ok(l) ==> {
            &&& l.wf()
            &&& l.usable_len >= size
            &&& l.usable_len < size + PAGE_SIZE
        }),
        r is Err ==> r == Err::<StackLayout, OutOfMemory>(OutOfMemory),
{
    if size > usize::MAX - 2 * PAGE_SIZE + 1 {
        return Err(OutOfMemory);
    }
    let rem = size % PAGE_SIZE;
    let usable = if rem == 0 { size } else { size - rem + PAGE_SIZE };
    Ok(StackLayout { usable_len: usable, total_len: usable + PAGE_SIZE })
}

/// The default stack layout: a default-sized usable part above its guard
/// page.
pub fn default_layout() -> (l: StackLayout)
    ensures
        l.wf(),
        l.usable_len == DEFAULT_STACK_SIZE,
{
    StackLayout { usable_len: DEFAULT_STACK_SIZE, total_len: DEFAULT_STACK_SIZE + PAGE_SIZE }
}

} // verus!
