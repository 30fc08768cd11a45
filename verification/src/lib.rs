//! Media organiser library: command parsing, option handling and the
//! text processing behind the `oms` commands.

pub mod foreign;
pub mod text;
pub mod order;
pub mod helpers;
pub mod commands;
pub mod actions;
pub mod config;
pub mod app;
