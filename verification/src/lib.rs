//! Turning a plain-language task into a shell command: the verified core.

pub mod text;
pub mod json;
pub mod safety;
pub mod ui;
pub mod context;
pub mod cli;
pub mod exec;
pub mod i18n;
pub mod integration;
pub mod suggestion;
pub mod provider;
pub mod config;
pub mod prompt;
pub mod install;
pub mod clipboard;
pub mod input;
pub mod winpath;
pub mod actions;
