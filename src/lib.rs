//! A runtime that lets a host program expose typed hooks, discover scripts
//! (child processes or dynamic libraries), check their version requirement and
//! dispatch hook calls to them.
//!
//! This crate holds the verified core: the wire frames, the buffers handed
//! across the library boundary, the version gate, the script registry and the
//! dispatch selection, and the decisions of the script-side runtime.

pub mod codec;
pub mod error;
pub mod ffi;
pub mod manager;
pub mod protocol;
pub mod runtime;
pub mod script;
pub mod version;

pub use error::Error;
pub use version::{Version, VersionReq};
