//! Administration core for a remote key-value store: configuration checks,
//! binding resolution, key encoding, failure diagnostics and confirmation.

pub mod advice;
pub mod client;
pub mod confirm;
pub mod emoji;
pub mod encode;
pub mod error;
pub mod generate;
pub mod kv;
pub mod remote;
pub mod target;
pub mod text;
