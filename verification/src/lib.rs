//! An in-memory virtual file system with a session-oriented request protocol.
//!
//! The namespace is a rooted tree of directories and file references over a
//! flat content store. Every operation carries a contract stated over the
//! mathematical model of the file system, and what holds across operations
//! is proved in `laws`.
//!
//! - `path`, `language`: the grammar of paths and the language of a file.
//! - `tree`, `store`, `vfs`: the namespace tree, the content store, and the
//!   file system that keeps the two in step.
//! - `session`, `connection`: the registry of sessions and the life of one
//!   connection.
//! - `protocol`, `dispatch`: requests, responses, and how a request is
//!   answered under the lock it needs.
//! - `handlers`, `commands`, `project`, `config`, `state`: the other
//!   interfaces onto the same file system, and the configuration.
//! - `clock`, `ident`: the time and fresh identifiers, which come from
//!   outside and of which next to nothing is assumed.

pub mod clock;
pub mod commands;
pub mod config;
pub mod connection;
pub mod dispatch;
pub mod error;
pub mod handlers;
pub mod ident;
pub mod language;
pub mod laws;
pub mod path;
pub mod project;
pub mod protocol;
pub mod session;
pub mod state;
pub mod store;
pub mod tree;
pub mod vfs;
