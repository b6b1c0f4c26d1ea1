//! Decisions of a compile-run-debug loop for a single source file.
//!
//! The source is recompiled only when its content digest differs from the one
//! stored after the last successful compile; the program then runs on a fixed
//! input file, and a failing run is handed to a debugger for a backtrace.
pub mod change;
pub mod command;
pub mod session;
pub mod guarantees;
