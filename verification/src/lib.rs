//! Declares runnable projects and locates their sources.
//!
//! A package is a project with a manifest that names the commands which set
//! it up, run it and check what it needs, with variants for each platform.
//! A package comes from a repository, named by a short address such as
//! `user/name` or `host.tld:user/name@v1`, or from a path on this machine.
//!
//! - [`grammar`] states the grammar of addresses and recognizes its parts.
//! - [`address`] states what a text spells and proves that it spells one
//!   thing at most.
//! - [`package_index`] reads addresses and holds the sources of packages.
//! - [`fetch`] plans a fetch and decides which step follows which.
//! - [`package`] holds the manifest and resolves its commands for a platform.
//! - [`describe`] writes a manifest out for a terminal.
//! - [`manager`] finds a package's manifest.
//!
//! Nothing here reads a file, clones a repository or runs a command: a
//! program around the library does that and reports what came of it.
pub mod address;
pub mod describe;
pub mod fetch;
pub mod grammar;
pub mod manager;
pub mod package;
pub mod package_index;
