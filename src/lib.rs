//! Attestation and sync-committee reward computation for a proof-of-stake
//! beacon node, over plain integer aggregates of a chain state.

pub mod attestation;
pub mod error;
pub mod sync_committee;
