//! Coordination core of a shell-script workflow engine: the status vocabulary,
//! the persistent records and their state machines, the queue envelope codec,
//! the cooperative process loop, and the submission planner.
use vstd::prelude::*;

pub mod engine;
pub mod envelope;
pub mod model;
pub mod parser;
pub mod process_loop;
pub mod script;
pub mod status;
pub mod trigger;
pub mod worker;

verus! {

} // verus!
