use vstd::prelude::*;
use vstd::utf8::encode_utf8;
use crate::address::Address;
use crate::rank::{count_at_most, valid_thresholds};

verus! {

/// The longest metadata a record may hold, in bytes.
pub const MAX_METADATA_LEN: usize = 200;

/// Seconds for which an attestation stays valid after it is issued.
pub const ATTESTATION_VALIDITY_SECS: i64 = 31536000;

/// The length in bytes of the UTF-8 encoding of `s`.
pub open spec fn byte_len(s: Seq<char>) -> nat {
    encode_utf8(s).len()
}

/// Metadata that a record may hold.
pub open spec fn metadata_fits(s: Seq<char>) -> bool {
    byte_len(s) <= MAX_METADATA_LEN
}

/// Checks the length of a metadata string.
pub fn metadata_within_limit(s: &String) -> (r: bool)
    ensures
        r == metadata_fits(s@),
{
    let b = s.as_str().as_bytes();
    b.len() <= MAX_METADATA_LEN
}

/// The per-owner identity record.
#[derive(Clone, Debug)]
pub struct AtomId {
    pub owner: Address,
    pub total_burned: u64,
    pub rank: u8,
    pub metadata: String,
    pub created_at_slot: u64,
    pub updated_at_slot: u64,
    pub bump: u8,
}

/// The configuration singleton.
#[derive(Clone, Debug)]
pub struct AtomConfig {
    pub admin: Address,
    pub min_create_burn: u64,
    pub rank_thresholds: Vec<u64>,
    pub burn_mint: Address,
    pub sas_credential: Address,
    pub sas_schema: Address,
    pub sas_authority: Address,
    pub bump: u8,
}

impl AtomConfig {
    /// The threshold list is short enough and ascending.
    pub open spec fn wf(&self) -> bool {
        valid_thresholds(self.rank_thresholds@)
    }
}

impl AtomId {
    /// The record's rank is the one its total reaches on `thresholds`, and its
    /// metadata fits.
    pub open spec fn consistent_with(&self, thresholds: Seq<u64>) -> bool {
        &&& self.rank as nat == count_at_most(thresholds, self.total_burned)
        &&& metadata_fits(self.metadata@)
    }
}

/// The host's clock at the time of an operation.
#[derive(Clone, Copy, Debug)]
pub struct HostClock {
    pub slot: u64,
    pub unix_timestamp: i64,
}

/// Emitted when the configuration is created.
#[derive(Clone, Copy, Debug)]
pub struct ConfigInitialized {
    pub admin: Address,
    pub min_create_burn: u64,
    pub burn_mint: Address,
}

/// Emitted when a record is created.
#[derive(Clone, Copy, Debug)]
pub struct AtomIdCreated {
    pub owner: Address,
    pub total_burned: u64,
    pub rank: u8,
}

/// Emitted when a record is upgraded.
#[derive(Clone, Copy, Debug)]
pub struct AtomIdUpgraded {
    pub owner: Address,
    pub total_burned: u64,
    pub old_rank: u8,
    pub new_rank: u8,
}

/// A request to burn `amount` of `mint` from `from`, signed by `authority`.
#[derive(Clone, Copy, Debug)]
pub struct BurnRequest {
    pub token_program: Address,
    pub mint: Address,
    pub from: Address,
    pub authority: Address,
    pub amount: u64,
}

} // verus!
