//! A package manager for SourceMod plugins: it resolves plugin names through
//! overlapping providers, plans how the plugins are staged, compiled and
//! installed into a game server, and keeps the manifest of a project.
//!
//! The library decides and plans; its caller touches the file system, the
//! network and the clock.

pub mod config;
pub mod fspath;
pub mod install;
pub mod plugins;
pub mod project;
pub mod repo;
pub mod sdk;
pub mod templates;
pub mod text;
pub mod tree;

use vstd::prelude::*;

verus! {

/// The application root that is used where none is given.
pub const DEFAULT_ROOT: &'static str = "~/.sm-pkg";

} // verus!
