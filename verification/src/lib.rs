//! Supervisor for a single long-running local backend process (the sidecar).
//!
//! The crate models the supervisor's decision logic: availability
//! preconditions, health-check polling, a lifecycle state machine, and
//! graceful-then-forceful shutdown with restart support. All operating-system
//! work (spawning, signalling, HTTP requests, sleeping) is performed by an
//! unverified driver that feeds events into the verified machines defined
//! here.

pub mod config;
pub mod error;
pub mod health;
pub mod sidecar;
pub mod state;
