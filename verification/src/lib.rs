//! Process-control syscall layer of a small cooperative kernel: voluntary
//! exit and yield, wall-clock time queries, and per-task diagnostics
//! snapshots (status, per-syscall invocation counters, elapsed running time).
//!
//! The scheduler (which picks the next runnable task and performs the
//! context switch) and the hardware clock live outside this crate; the
//! syscall functions here take the clock reading as a plain value and
//! effect their state transitions on the task directory.

pub mod process;
pub mod task;
