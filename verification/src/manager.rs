//! The supervisor: jobs, their runtime records and the table that holds them.

pub mod job;
pub mod process;
pub mod server;
