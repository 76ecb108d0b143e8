//! Records exchanged between the routes and the handlers.
pub mod user;
