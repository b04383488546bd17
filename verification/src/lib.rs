//! A transmit-throughput benchmarking engine: payload-size planning, rate
//! statistics, in-place progress rendering and the sweep driver, all as
//! verified functions on plain values.

pub mod config;
pub mod driver;
pub mod plan;
pub mod progress;
pub mod rate;
pub mod text;
pub mod timing;

pub use timing::Elapsed;
