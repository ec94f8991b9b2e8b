//! Decision logic of a CO2 monitoring dashboard: reading classification,
//! notification rules, settings handling and request preparation.

pub mod auth;
pub mod config;
pub mod handlers;
pub mod level;
pub mod text;
pub mod models;
pub mod ntfy;
pub mod notifier;
