//! Verified core of the OMYWALL wallpaper engine: text parsing of tool
//! output and web pages, configuration rendering, and the playback state
//! machine that the daemon drives.

pub mod text;
pub mod steam_workshop;
pub mod strset;
pub mod pathset;
pub mod gui;
pub mod paths;
pub mod iced_gui;
pub mod config;
pub mod electron_preview;
pub mod servo_render;
pub mod logger;
pub mod json;
pub mod workshop_api;
pub mod lwe;
pub mod steam_scanner;
pub mod display;
pub mod engine;
pub mod daemon;
pub mod lua;
pub mod json_text;
pub mod assets;
pub mod thumbs;
pub mod tui;
pub mod ipc;
pub mod installer;
pub mod panel;
pub mod metrics;
pub mod requests;
