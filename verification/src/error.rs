//! Why an entrypoint refuses a call.
use crate::types::Address;
use vstd::prelude::*;

verus! {

/// A refused call. Every variant but `MissingAuth` is a contract error with a
/// stable numeric code; `MissingAuth` is the host's refusal of an address that
/// did not authorize the call.
#[derive(Clone, Copy, PartialEq, Eq, Structural, Debug)]
pub enum EscrowError {
    AlreadyInitialized,
    RequestsMustBePositive,
    NotInitialized,
    ContractPaused,
    NoPendingAdmin,
    Unauthorized,
    ServiceNotRegistered,
    RequestsExceedsMaxPerCall,
    RequestsBelowMinPerCall,
    AgentNotAllowed,
    MigrationVersionMismatch,
    ServiceDisabled,
    ServiceMetadataNotFound,
    InvalidAdminProposal,
    RateLimitExceeded,
    BatchTooLarge,
    AgentBlocked,
    DisputeNotOpen,
    InvalidPriceTiers,
    InvalidRequestBounds,
    /// A price outside the configured band. Its code is 25: code 23 is the
    /// per-call bounds guard's, and 24 the inverted band's.
    PriceOutOfBounds,
    InvertedPriceBand,
    NotServiceOwner,
    OwnershipUnchanged,
    InsufficientCredit,
    MissingAuth(Address),
}

/// The numeric code of a contract error; `None` for the host's auth refusal.
pub open spec fn error_code(e: EscrowError) -> Option<u32> {
    match e {
        EscrowError::AlreadyInitialized => Some(1),
        EscrowError::RequestsMustBePositive => Some(2),
        EscrowError::NotInitialized => Some(3),
        EscrowError::ContractPaused => Some(4),
        EscrowError::NoPendingAdmin => Some(5),
        EscrowError::Unauthorized => Some(6),
        EscrowError::ServiceNotRegistered => Some(7),
        EscrowError::RequestsExceedsMaxPerCall => Some(8),
        EscrowError::RequestsBelowMinPerCall => Some(9),
        EscrowError::AgentNotAllowed => Some(10),
        EscrowError::MigrationVersionMismatch => Some(11),
        EscrowError::ServiceDisabled => Some(12),
        EscrowError::ServiceMetadataNotFound => Some(13),
        EscrowError::InvalidAdminProposal => Some(14),
        EscrowError::RateLimitExceeded => Some(15),
        EscrowError::BatchTooLarge => Some(16),
        EscrowError::AgentBlocked => Some(17),
        EscrowError::DisputeNotOpen => Some(18),
        EscrowError::InvalidPriceTiers => Some(19),
        EscrowError::InvalidRequestBounds => Some(23),
        EscrowError::PriceOutOfBounds => Some(25),
        EscrowError::InvertedPriceBand => Some(24),
        EscrowError::NotServiceOwner => Some(26),
        EscrowError::OwnershipUnchanged => Some(27),
        EscrowError::InsufficientCredit => Some(28),
        EscrowError::MissingAuth(_) => None,
    }
}

impl EscrowError {
    /// The error's numeric contract code, or `None` for a missing authorization.
    pub fn code(&self) -> (c: Option<u32>)
        ensures
            c == error_code(*self),
    {
        match self {
            EscrowError::AlreadyInitialized => Some(1),
            EscrowError::RequestsMustBePositive => Some(2),
            EscrowError::NotInitialized => Some(3),
            EscrowError::ContractPaused => Some(4),
            EscrowError::NoPendingAdmin => Some(5),
            EscrowError::Unauthorized => Some(6),
            EscrowError::ServiceNotRegistered => Some(7),
            EscrowError::RequestsExceedsMaxPerCall => Some(8),
            EscrowError::RequestsBelowMinPerCall => Some(9),
            EscrowError::AgentNotAllowed => Some(10),
            EscrowError::MigrationVersionMismatch => Some(11),
            EscrowError::ServiceDisabled => Some(12),
            EscrowError::ServiceMetadataNotFound => Some(13),
            EscrowError::InvalidAdminProposal => Some(14),
            EscrowError::RateLimitExceeded => Some(15),
            EscrowError::BatchTooLarge => Some(16),
            EscrowError::AgentBlocked => Some(17),
            EscrowError::DisputeNotOpen => Some(18),
            EscrowError::InvalidPriceTiers => Some(19),
            EscrowError::InvalidRequestBounds => Some(23),
            EscrowError::PriceOutOfBounds => Some(25),
            EscrowError::InvertedPriceBand => Some(24),
            EscrowError::NotServiceOwner => Some(26),
            EscrowError::OwnershipUnchanged => Some(27),
            EscrowError::InsufficientCredit => Some(28),
            EscrowError::MissingAuth(_) => None,
        }
    }
}

/// Distinct contract errors carry distinct codes.
pub proof fn lemma_error_codes_distinct(a: EscrowError, b: EscrowError)
    requires
        error_code(a) is Some,
        error_code(a) == error_code(b),
    ensures
        a == b,
{
}

} // verus!
