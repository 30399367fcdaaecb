use vstd::prelude::*;

verus! {

/// Typed failure codes for the activation pipeline.
///
/// Every validation step fails fast and surfaces exactly one of these to the
/// caller; no partial effect survives a failure.
#[derive(Clone, Copy, Debug, PartialEq, Eq, Structural)]
pub enum CrowdError {
    /// The fee-destination account is malformed, or its recorded owner is
    /// not the derived authority.
    InvalidFeeAccount,
    /// The supplied authority account does not match the deterministic
    /// derivation, or the derivation itself degenerates.
    InvalidAuthority,
    /// The account claiming to be the creator did not sign the call.
    InvalidSignature,
    /// Activation was requested on an already-active record.
    AlreadyEnabled,
    /// The signer does not match the record's stored creator.
    CreatorMismatch,
    /// The requested amount does not equal the fixed activation fee.
    InvalidAmount,
    /// The supplied settlement-engine account is not the pinned genuine one.
    InvalidSettlementEngine,
    /// The request envelope or the stored record bytes are malformed.
    DecodeError,
    /// The settlement engine rejected or could not complete the transfer.
    DelegatedTransferFailed,
}

impl CrowdError {
    /// Numeric code of each error, in declaration order, for embedding in a
    /// host runtime's custom-error space.
    pub open spec fn spec_code(self) -> u32 {
        match self {
            CrowdError::InvalidFeeAccount => 0,
            CrowdError::InvalidAuthority => 1,
            CrowdError::InvalidSignature => 2,
            CrowdError::AlreadyEnabled => 3,
            CrowdError::CreatorMismatch => 4,
            CrowdError::InvalidAmount => 5,
            CrowdError::InvalidSettlementEngine => 6,
            CrowdError::DecodeError => 7,
            CrowdError::DelegatedTransferFailed => 8,
        }
    }

    /// Stable numeric code of this error.
    pub fn code(&self) -> (r: u32)
        ensures
            r == self.spec_code(),
    {
        match self {
            CrowdError::InvalidFeeAccount => 0,
            CrowdError::InvalidAuthority => 1,
            CrowdError::InvalidSignature => 2,
            CrowdError::AlreadyEnabled => 3,
            CrowdError::CreatorMismatch => 4,
            CrowdError::InvalidAmount => 5,
            CrowdError::InvalidSettlementEngine => 6,
            CrowdError::DecodeError => 7,
            CrowdError::DelegatedTransferFailed => 8,
        }
    }
}

} // verus!
