//! Verified core of a terminal client for Jellyfin media servers.
pub mod app;
pub mod client;
pub mod config;
pub mod download;
pub mod images;
pub mod input;
pub mod model;
pub mod player;
pub mod text;
pub mod ui;
