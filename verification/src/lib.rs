//! Verified core of a small blog's image store.
//!
//! The store validates uploaded or downloaded bytes as PNG images, names each
//! stored image by a freshly generated UUID, derives a sharded file-system
//! path from that name, and decides how save, load and delete operations
//! combine. Network and file-system work is left to the surrounding program;
//! this crate holds the logic and its proofs.

pub mod error;
pub mod images;
pub mod model;
