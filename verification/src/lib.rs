//! Verified core of `wallthi`, a wallpaper rotation daemon driving `swww`.
//!
//! The library holds the daemon's state machine, its configuration model,
//! the command-line arguments handed to `swww`, the choice of a wallpaper
//! among the configured paths, and the framing of command bytes received
//! over TCP. Sockets, files, processes and threads live in the application.

pub mod command;
pub mod dot_config;
pub mod utils;
pub mod daemon;
pub mod tcp;
