//! Handlers: what the routes ask of the caches and repositories, decided here.
pub mod auth;
pub mod users;
