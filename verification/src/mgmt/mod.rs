//! Management concerns: log settings and health checks.
pub mod apm;
pub mod health;
