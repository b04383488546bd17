//! The sweep driver: the decisions of a benchmark run as a state machine.

pub mod laws;
pub mod machine;
pub mod model;
pub mod types;
