//! Verified core of a stackful coroutine engine.
//!
//! A stackful coroutine carries its own call stack, suspends itself mid-call,
//! and is later resumed exactly where it left off.  This crate verifies the
//! parts of such an engine that are pure logic: the word-sized value-transfer
//! encoding that carries a value across a context switch through a single
//! register, the layout of a guarded coroutine stack, and the control block's
//! lifecycle state machine.

pub mod coroutine;
pub mod encoding;
pub mod introspect;
pub mod machine;
pub mod scoped;
pub mod stack;
