//! Records of the command-line studio.

pub mod ditto_app_config;
pub mod ditto_subscription;
