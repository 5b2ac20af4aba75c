//! Serves static assets out of a remote key-value store.
//!
//! A precomputed, binary-encoded index maps request paths to the storage key
//! and metadata of each asset. [`KVAssets`] decodes that index lazily, resolves
//! request paths against it, and prepares and classifies the HTTP exchanges
//! with the store.

pub mod assets;
pub mod codec;
pub mod error;
pub mod index;
pub mod text;

pub use assets::{failure_message, read_outcome, write_outcome, KVAssets};
pub use error::Error;
pub use index::{AssetIndex, AssetMetadata};
