//! Instruction-level emulation of two early x86 processor generations, with
//! the machines that host them and a scheduler for components that run at
//! different clock rates.
//!
//! Every function states what it computes over plain mathematical values, and
//! the statements are machine-checked.

pub mod cpu;
pub mod cpu286;
pub mod cpu8086;
pub mod hardware;
pub mod scheduler;
