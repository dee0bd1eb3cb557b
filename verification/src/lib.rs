pub mod app_state;
pub mod config;
pub mod domain;
pub mod routes;
pub mod services;
pub mod utils;

pub use crate::app_state::AppState;
pub use crate::config::Settings;
pub use crate::domain::error::ErrorResponse;
