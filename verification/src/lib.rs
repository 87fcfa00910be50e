//! Verified core of a terminal music player for Subsonic-compatible servers.
pub mod app;
pub mod client;
pub mod config;
pub mod player;
pub mod rng;
pub mod sorting;
pub mod text;
pub mod ui;
