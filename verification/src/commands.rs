//! The commands of the tool's menu.

pub mod config;
