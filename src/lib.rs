//! Extension configuration: the closed set of extension kinds, their shared
//! identity, and the guard that keeps dangerous environment variables away
//! from spawned extensions.

pub mod config;
pub mod env_filter;
pub mod envs;
pub mod error;
pub mod info;
pub mod text;

pub use config::ExtensionConfig;
pub use envs::Envs;
pub use error::{ExtensionError, ExtensionResult};
pub use info::{ExtensionInfo, PermissionLevel, ToolInfo};
