//! Decision logic of the LiveChat overlay and relay server.
pub mod config;
pub mod encode;
pub mod link;
pub mod media;
pub mod server;
pub mod startup;
pub mod status;
pub mod text;
pub mod updater;
pub mod youtube;
