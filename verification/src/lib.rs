//! Installs prebuilt release binaries of "owner/name" repositories and keeps a
//! registry of what was installed.
//!
//! The modules hold the decisions of that work: which release is described,
//! which archive may be installed, what the registry holds afterwards. Reading
//! the network, the terminal and the file system is left to the caller.

pub mod archive;
pub mod config;
pub mod database;
pub mod error;
pub mod install;
pub mod list;
pub mod print;
pub mod repo;
pub mod text;
pub mod uninstall;
pub mod update;
