//! Zstandard-compressed assets held in fixed-size containers.
//!
//! At build time a file is compressed and written out as an expression that
//! builds an [`EmbeddedZstd`] from the compressed bytes. At run time the asset
//! is decompressed on demand, any number of times.

pub mod asset;
pub mod bytes;
pub mod codec;
pub mod decimal;
pub mod embed;
pub mod error;
pub mod order;

pub use asset::EmbeddedZstd;
pub use embed::include_zstd_inner;
pub use embed::FoundCrate;
pub use error::DecodeError;
pub use error::EmbedError;
