//! A verified layout-migration engine for a tool's persistent state directory.
//!
//! An installation root evolves through a chain of layout versions.  The
//! library detects which version is on disk, plans the exact sequence of
//! filesystem actions that brings the root to the latest layout, and proves
//! the properties that make the migration safe to re-run: the completion
//! marker is always the last write, cleanup removes only known-obsolete
//! artifacts, and repeating a step on its own output changes nothing.
//!
//! The filesystem itself is represented by the [`dir::RootDir`] model; a thin
//! unverified shell reads the real directory into that model, asks the
//! library for the plan, and performs each action in order.

pub mod detect;
pub mod dir;
pub mod driver;
pub mod errors;
pub mod laws;
pub mod layout;
pub mod names;
pub mod plan;
