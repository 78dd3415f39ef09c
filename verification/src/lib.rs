//! Core of a small single-core kernel: a bounded FIFO queue shared between
//! interrupt handlers and polling code, a critical-section guard that
//! suspends interrupt delivery while shared state is touched, an interrupt
//! dispatch table with its entry/exit protocol, and a cooperative
//! round-robin scheduler over a fixed pool of threads.
//!
//! Hardware effects (port I/O, the CPU's interrupt-enable flag, register
//! files) are modelled as explicit state passed by reference, so that every
//! decision the kernel makes is stated and proved; a host harness supplies
//! the machine-level backend.

pub mod cpu;
pub mod critical;
pub mod interrupts;
pub mod keyboard;
pub mod queue;
pub mod sched;
pub mod serial;
pub mod tasks;
pub mod vga;
