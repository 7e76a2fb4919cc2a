//! The core of an interactive line shell: the line editor and its history,
//! the classification of a submitted line, the expansion of `$NAME`
//! references from a variable table, and the plan for launching a program.
//!
//! Everything here works on plain values. Reading keys, drawing, switching
//! the terminal mode and starting processes are left to the caller, which
//! drives the [`shell::Shell`] state machine and performs what it decides.

pub mod text;
pub mod vars;
pub mod builtin;
pub mod classify;
pub mod config;
pub mod expand;
pub mod history;
pub mod launch;
pub mod panel;
pub mod shell;
