use vstd::prelude::*;

verus! {

/// The ways an operation can be refused.
#[derive(Clone, Copy, Debug, PartialEq, Eq, Structural)]
pub enum ErrorCode {
    InsufficientBurnAmount,
    MetadataTooLong,
    InvalidBurnMint,
    InvalidTokenAccount,
    InvalidTokenProgram,
    Unauthorized,
    Overflow,
    TooManyRankThresholds,
    RankThresholdsNotSorted,
    InvalidSasCredential,
    InvalidSasSchema,
    InvalidSasAuthority,
}

impl ErrorCode {
    /// The human-readable message for this error.
    pub fn message(&self) -> (r: &'static str) {
        match self {
            ErrorCode::InsufficientBurnAmount => "Burn amount is below minimum required",
            ErrorCode::MetadataTooLong => "Metadata exceeds maximum length of 200 characters",
            ErrorCode::InvalidBurnMint => "Invalid burn mint address",
            ErrorCode::InvalidTokenAccount => "Invalid token account",
            ErrorCode::InvalidTokenProgram => "Invalid token program",
            ErrorCode::Unauthorized => "Unauthorized: not the owner or admin",
            ErrorCode::Overflow => "Arithmetic overflow",
            ErrorCode::TooManyRankThresholds => "Too many rank thresholds (max 10)",
            ErrorCode::RankThresholdsNotSorted => "Rank thresholds must be sorted in ascending order",
            ErrorCode::InvalidSasCredential => "Invalid SAS credential address",
            ErrorCode::InvalidSasSchema => "Invalid SAS schema address",
            ErrorCode::InvalidSasAuthority => "Invalid SAS authority",
        }
    }
}

} // verus!
