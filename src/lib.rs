//! Data-availability layer core for a light client: decoding of epoch
//! records published as blobs, filtering of fetched batches, validation of
//! backend settings, and the cached sync target driven by a header
//! subscription.

pub mod error;
pub mod codec;
pub mod fetch;
pub mod connection;
pub mod sync;
