//! Application performance management settings.
pub mod logging;
