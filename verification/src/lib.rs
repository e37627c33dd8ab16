//! Verified core of a small NixOS maintenance tool: it asks the user what to
//! do, updates and rebuilds a flake, commits the flake repository and pushes
//! it. The decisions live here; prompts, processes and the terminal live in
//! the application around this library.

pub mod paths;
pub mod config;
pub mod port;
pub mod process;
pub mod commands;
pub mod privilaged;
pub mod git;
pub mod git_records;
pub mod interview;
pub mod tasks;
