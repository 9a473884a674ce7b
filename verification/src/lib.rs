pub mod bot;
pub mod command;
pub mod config;
pub mod format;
pub mod input;
pub mod memory;
pub mod offsets;
pub mod profile;
pub mod service;
pub mod text;
pub mod ui;
