//! Scheduling shim for a stateful, CPU-bound emulation core.
//!
//! The library is the decision logic of the scheduling loop: a state machine
//! that alternates between driving the emulator until it reports idleness,
//! sampling observable state (graphics, console bytes), and racing an adaptive
//! timeout against incoming input. Each step consumes one observation and
//! yields the outputs to emit and the next action to perform. The surrounding
//! process owns the emulator, the channels and the timers; it performs each
//! action and feeds the result back in.

pub mod events;
pub mod lemmas;
pub mod runner;
