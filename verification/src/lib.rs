//! A lightweight, file-backed object cache.
//!
//! Callers register named cache objects with a [`Cache`] manager; each object
//! maps to a single file on disk whose location is derived from a configurable
//! base path and filename template.  The manager enforces name validity,
//! issues monotonically increasing identifiers, and owns the in-memory
//! name-to-object registry.  The objects themselves are thin handles carrying
//! a name, an id, a creation timestamp and the resolved backing path.
//!
//! Path and filename materialization is configuration driven: a
//! [`CacheConfig`] holds per-platform base paths and a filename template with
//! `{name}`, `{id}` and `{time}` placeholders, may be built from a JSON
//! document, and may be partially overridden per creation call.
//!
//! The actual file reads, writes and deletions are filesystem effects and are
//! left to the embedding application; this crate computes and guarantees
//! everything up to that point.

use vstd::prelude::*;

pub mod cache;
pub mod config;
pub mod error;
pub mod object;
pub mod utils;

pub use cache::Cache;
pub use config::{CacheConfig, CacheFormatConfig, CachePathConfig, LifecyclePolicy};
pub use error::CacheError;
pub use object::CacheObject;
pub use utils::{expand_path, validate_name};

verus! {

/// Result type alias for cache operations.
pub type CacheResult<T> = std::result::Result<T, CacheError>;

} // verus!
