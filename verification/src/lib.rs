//! An edge-triggered TCP-reachability monitor core.
//!
//! The library holds the decision logic of the monitor: classifying a probe
//! outcome, deciding when a log line and an external alert are due (only on a
//! change of classification, never on steady-state repetition), and parsing
//! the textual configuration values. Performing the probe itself, sending the
//! alerts and reading the environment are left to the surrounding program.

pub mod config;
pub mod laws;
pub mod monitor;
pub mod parse;
