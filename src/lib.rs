//! Observation of OS control signals and their relay from a manager process
//! to a worker process that lives in a process group of its own.
pub mod event;
pub mod wire;
pub mod source;
pub mod relay;
pub mod worker;
