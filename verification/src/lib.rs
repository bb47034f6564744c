//! Client-side core of the herdr terminal workspace manager.

pub mod api;
pub mod client;
pub mod config;
pub mod config_laws;
pub mod input;
pub mod lists;
pub mod remote;
pub mod remote_registry;
pub mod text;
pub mod text_laws;
pub mod ui;
