//! Planning core of a small dependency-vendoring tool.
//!
//! Given a manifest of named dependencies, each a local path or a remote
//! repository pinned to a branch, tag or revision, the library decides what
//! has to happen to bring a vendor directory in line with the manifest. It
//! performs no I/O itself: callers observe the filesystem, ask the library
//! what to do, and carry the answer out.

pub mod backend;
pub mod cli;
pub mod config;
pub mod credentials;
pub mod error;
pub mod expand;
pub mod lexical;
pub mod manifest;
pub mod ops;
pub mod plan;
pub mod systools;
pub mod text;
pub mod update;
pub mod url;
