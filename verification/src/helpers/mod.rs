//! Scaffolding that sets up spheres for examples and trials: ephemeral sphere
//! contexts, link records, block walks and chains of peers.

pub mod link_record;
pub mod peer_chain;
pub mod peer_chain_laws;
pub mod simulation;
pub mod touch;
