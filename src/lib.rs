//! The decisions of a start-of-day routine: synchronise a git branch, launch
//! applications, wait for them, and run shell commands, stopping at the first
//! failure. Starting processes and reading answers is left to the caller,
//! which hands the outcomes back as plain values.
pub mod application;
pub mod config;
pub mod git;
pub mod process;
pub mod routine;
pub mod shell;
pub mod text;
