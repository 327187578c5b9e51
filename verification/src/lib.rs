//! Verified core of the ADI command-line manager: the daemon's wire protocol and
//! service bookkeeping, release and version selection, shell completion setup,
//! and the parsing and decision logic behind the commands.
pub mod text;
pub mod self_update;
pub mod protocol;
pub mod table;
pub mod services;
pub mod health;
pub mod executor;
pub mod error;
pub mod release_installer;
pub mod project_config;
pub mod init;
pub mod user_config;
pub mod plugin_runtime;
pub mod component;
pub mod registry;
pub mod installer;
pub mod cmd_daemon;
pub mod completions;
pub mod plugin_registry;
pub mod start;
pub mod interactive;
pub mod external;
pub mod components;
pub mod http_server;
pub mod plugin_files;
pub mod mcp;
pub mod archive;
pub mod json;
pub mod toml_doc;
