//! Syndication of the blocks of a counterpart sphere to an IPFS node.

pub mod checkpoint;
pub mod filter;
pub mod job;
pub mod job_laws;
pub mod task;
