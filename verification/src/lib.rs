//! A process supervisor's decisions, stated and proved.
//!
//! The supervisor keeps a table of named jobs and, tick by tick, moves what it
//! observes of each child process toward what was asked for. Everything here is
//! a pure step from a state and an event to the next state and an action; the
//! caller spawns, signals and polls the real processes and reports back.

pub mod config;
pub mod manager;
pub mod monitor;
pub mod os;
pub mod paths;
pub mod rpc;
pub mod settings;
pub mod text;
