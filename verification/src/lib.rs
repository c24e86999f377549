//! Parameter bookkeeping, control-panel state and display layout of a simulator for two
//! coupled Lugiato-Lefever resonators.
pub mod chart;
pub mod property;
pub mod gui;
pub mod session;
pub mod laws;
