//! Client-side library for publishing and retrieving TTL-gated encrypted files on IPFS.

pub mod client;
pub mod config;
pub mod crypto;
pub mod error;
pub mod experiment;
pub mod ipfs;
pub mod key_client;
pub mod pipeline;

pub use error::Error;
