//! Per-vehicle bridge between a simulated vehicle actor and an autonomy
//! stack: staging of asynchronously delivered motion commands, and the
//! per-tick read/transform/apply cycle that turns the latest command into
//! actuation for the simulator.
//!
//! All physical scalars are carried as fixed-point integers (documented on
//! each field); the transport, the simulator and the numeric feedback
//! controller live outside this crate and exchange plain values with it.

pub mod bridge;
pub mod command;
pub mod messages;
pub mod store;
pub mod units;
