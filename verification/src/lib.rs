//! Configuration-driven dispatch engine for a machine-bootstrap tool.
//!
//! A configuration document declares packages to install, repositories to
//! clone and files to download.  A versioned parser walks the document,
//! resolves each entry's tool name through a capability factory and lets the
//! resolved handler drive an external command for every listed item, while a
//! notification sink reports per-item progress.

pub mod arguments;
pub mod command;
pub mod commands;
pub mod configuration;
pub mod file_download;
pub mod file_reader;
pub mod package_manager;
pub mod parser;
pub mod terminal;
pub mod tool_name;
pub mod version_control;
