//! A minimal interactive process debugger engine.
//!
//! The crate contains the process-control and breakpoint engine of a small
//! ptrace-based debugger: command parsing, the breakpoint table and its
//! word-patching arithmetic, classification of wait events, and the session
//! state machine.  The operating-system calls themselves (issued through the
//! `nix` crate) stand behind a handful of trusted wrappers; everything that
//! decides or computes is verified.

pub mod bits;
pub mod engine;
pub mod parse;
pub mod regs;
pub mod render;
pub mod table;
