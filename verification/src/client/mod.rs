//! Data model and protocol logic of the Subsonic client.
pub mod api;
pub mod auth;
pub mod models;
