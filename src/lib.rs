//! Battery and AC-adapter monitoring: reduction of raw readings to a coarse
//! state and a charge level, recognition of the adapter, and the per-tick
//! notification state machine.
pub mod adapter;
pub mod bat;
pub mod config;
pub mod monitor;
