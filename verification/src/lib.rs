//! A continuous-deployment watcher: it takes a push notification for a
//! repository, works out what changed, refreshes the dependencies where
//! needed and restarts the supervised application.
//!
//! The library holds the decisions. Whatever touches the network, the file
//! system or a child process is done by the caller, who reports the result
//! back as a plain value.

pub mod app_manager;
pub mod change;
pub mod codec;
pub mod config;
pub mod cycle;
pub mod error;
pub mod github;
pub mod orchestrator;
pub mod package_manager;
pub mod paths;
pub mod signature;
pub mod text;
pub mod webhook;
