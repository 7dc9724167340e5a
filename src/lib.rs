//! Reconciles dotfile modules (bundles of resources and lifecycle scripts)
//! against a home directory by way of symbolic links.
//!
//! Every decision is made here, over observations of the filesystem that the
//! caller gathers; the caller performs the actions that come back.

pub mod actions;
pub mod error;
pub mod install;
pub mod module;
pub mod paths;
pub mod permissions;
pub mod uninstall;
