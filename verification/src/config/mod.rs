//! Configuration: the properties read from the configuration file and their defaults.
pub mod config;
pub mod config_api;
