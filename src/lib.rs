//! A bounded, time-aware key-value cache with verified capacity and lookup rules.
use vstd::prelude::*;

pub mod cache;
mod clock;
pub mod entry;
pub mod error;
pub mod laws;
pub mod text;

pub use cache::Cache;
pub use entry::CacheEntry;
pub use error::CacheError;
pub use text::longest;
