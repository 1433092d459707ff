//! A verified core for a registry load-generation utility.
//!
//! The library simulates a fleet of service instances that register with a
//! Nacos-style HTTP registry and keep themselves alive with periodic
//! heartbeats.  Everything that can be decided without performing I/O lives
//! here, fully specified and verified: configuration validation, derivation
//! of the mock instance fleet from a configuration, construction of the
//! exact HTTP requests (login, register, heartbeat), and the scheduler state
//! machine that drives a whole run.  An unverified shell is expected to carry
//! the requests over the network and feed the outcomes back as events.

pub mod config;
pub mod decimal;
pub mod instance;
pub mod registry;
pub mod scheduler;
