//! Core of a minimal single-core kernel: the interrupt-controller driver,
//! a process table with a round-robin scheduler, a POSIX-style signal
//! subsystem, and the syscall dispatcher that ties them together.
//!
//! Hardware registers are held as owned state (a register-file model), the
//! bounded kernel tables live in `heapless` vectors behind small trusted
//! wrappers, and every state change is specified against a mathematical
//! view of the component it touches.  The laws the whole core obeys —
//! round-robin fairness, quota enforcement, re-parenting, uncatchable
//! signals, FIFO draining of blocked signals, acknowledge/EOI pairing, and
//! the not-implemented answer for unknown syscalls — are proved in `laws`.

pub mod filesystem;
pub mod gpio;
pub mod hvec;
pub mod interrupt;
pub mod laws;
pub mod mmu;
pub mod process;
pub mod signals;
pub mod syscalls;
pub mod timer;
pub mod uart;
