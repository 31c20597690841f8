//! Decision logic of a task dispatcher that hands IO-bound and CPU-bound
//! tasks to a bounded pool of workers without letting the reserved CPU share
//! pass a global limit.

pub mod rng;
pub mod task;
pub mod schedule;
pub mod dispatch_laws;
pub mod manager;
pub mod workload;
