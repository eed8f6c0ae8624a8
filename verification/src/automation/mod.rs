//! What an Automation task may do to the device session, and the bookkeeping
//! of a running task.

pub mod access;
pub mod runner;
pub mod workflow;
