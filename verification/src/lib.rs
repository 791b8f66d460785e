//! Decision core of an S3-backed blobstore capability provider.
//!
//! The crate holds everything the provider decides: how container names are
//! resolved through aliases, which link a caller is bound to, which request
//! goes to the storage backend for an operation, what a backend reply means
//! for the caller, and how the dispatcher reacts to what arrives on its
//! operation channels. It performs no I/O itself: the surrounding program
//! sends the requests, awaits the replies and feeds them back.

pub mod alias;
pub mod backend;
pub mod buffer;
pub mod client;
pub mod config;
pub mod course;
pub mod dispatch;
pub mod error;
pub mod handler;
pub mod kind;
pub mod object;
pub mod operation;
pub mod provider;
pub mod text;
