//! Storage of blocks as blobs that are addressed by their hash.

pub mod block;
pub mod block_laws;
pub mod hash;
pub mod open;
pub mod storage;
