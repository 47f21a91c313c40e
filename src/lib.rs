//! Locating a secure entropy source on a JavaScript host and planning how
//! its bytes reach a caller's buffer.
//!
//! The decisions live here and are verified: which provider a host offers
//! (`source`), caching it once per execution context (`cache`), and how a
//! destination buffer is split into provider calls (`fill`). Performing the
//! host calls themselves is left to the embedding code.
pub mod error;
pub mod fill;
pub mod cache;
pub mod source;
