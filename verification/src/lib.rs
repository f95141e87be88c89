//! Duty-cycle throttling of a running process.
//!
//! A target process is slowed down from the outside: each of its tasks is
//! attached to, then repeatedly stopped and resumed on a fixed schedule for a
//! bounded time, and finally released. This crate holds the rules of that
//! procedure: the configuration, the selection of the tasks to control, and
//! the state machine that one controller follows for one task. Every function
//! here is verified; the operating-system calls themselves are made by the
//! program that drives the state machine.

pub mod config;
pub mod controller;
pub mod trace;
pub mod text;
pub mod discovery;
pub mod session;
