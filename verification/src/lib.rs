//! A small client library for a third-party game-library API: it builds
//! authenticated queries, triages HTTP response statuses into a typed error
//! taxonomy, and translates the JSON wire schema into domain records.

pub mod app_model;
pub mod client_state;
pub mod decimal;
pub mod json;
pub mod library;
pub mod server_model;
pub mod steam_client;
pub mod steam_database;
pub mod steam_user_library;
pub mod urls;
