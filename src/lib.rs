//! A monitoring agent's core: per-monitor schedules, probe dispatch, a registry of monitors that
//! survives pauses, and a lifecycle manager that turns create, pause, resume and kill commands
//! into the execution contexts to stop and start.
use vstd::prelude::*;

pub mod clock;
pub mod config;
pub mod executor;
pub mod registry;
pub mod server;
pub mod timer;
pub mod worker;

verus! {

} // verus!
