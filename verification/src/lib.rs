//! Verified decision logic of a Noosphere node.

pub mod address;
pub mod content;
pub mod helpers;
pub mod iroh;
pub mod runner;
pub mod runner_laws;
pub mod serve;
pub mod sqlite;
pub mod syndication;
pub mod text;
