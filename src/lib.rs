//! Burn-gated identity records: a per-owner record whose rank follows the
//! cumulative amount of a token that the owner has burned, mirrored into an
//! external attestation registry.
pub mod address;
pub mod error;
pub mod rank;
pub mod pda;
pub mod sas_integration;
pub mod state;
pub mod program;
pub mod laws;
