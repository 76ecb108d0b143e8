//! A web-notes API server's core: configuration, caches, authentication
//! decisions, health checks and logging settings.
pub mod cache;
pub mod config;
pub mod handler;
pub mod mgmt;
pub mod models;
pub mod route;
pub mod routes;
pub mod store;
pub mod text;
pub mod types;
