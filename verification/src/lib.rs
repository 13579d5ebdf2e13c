//! Verified core of the workspace bootstrapper: which plugins, MCP servers,
//! commands, agents and skills a workspace gets, how an existing
//! `opencode.json(c)` is updated, and which entries of the enterprise skill
//! archive are installed.

pub mod text;
pub mod plugins;
pub mod json;
pub mod config;
pub mod archive;
pub mod seed_texts;
pub mod seeds;
pub mod config_laws;

pub use plugins::merge_plugins;
