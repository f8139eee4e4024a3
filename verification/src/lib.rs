//! Local reactive cache layer: a bounded diagnostic log, typed operations on
//! one document collection, and live-query delivery.

pub mod app;
pub mod clock;
pub mod ditto_app_config;
pub mod ditto_config;
pub mod ditto_manager;
pub mod document;
pub mod identifier;
pub mod live_query;
pub mod logging;
pub mod models;
pub mod repositories;
pub mod text;
