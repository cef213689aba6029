//! Shared model of infrastructure builds: configurations, production presets,
//! cost estimates, account credentials and the build registry.
pub mod text;
pub mod models;
pub mod cost;
pub mod presets;
pub mod auth;
pub mod why;
pub mod builds;
