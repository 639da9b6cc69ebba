use vstd::prelude::*;

verus! {

/// Every way an operation of the protocol can be refused.
#[derive(Clone, Copy, Debug, PartialEq, Eq, Structural)]
pub enum ErrorCode {
    /// The caller does not hold the claim credential of the named position.
    DoesNotHoldPosition,
    /// The amount does not match the one required by the campaign.
    InvalidAmount,
    /// An asset identity does not match the one recorded for the campaign.
    InvalidMint,
    /// The phase change is not allowed in the campaign's current state.
    InvalidPhaseChange,
    /// The deposit would exceed the campaign's cap.
    MaxCapReached,
    /// The signer must be the admin authority.
    NotAdminAuthority,
    /// The signer must be the campaign's project.
    NotProject,
    /// The signer must be the whitelist authority.
    NotWhitelistAuthority,
    /// The fund collection window is over.
    FundCollectionPhaseCompleted,
    /// The fund collection window has not opened yet.
    FundCollectionPhaseNotStarted,
    /// The operation is not allowed in the campaign's current phase.
    UnauthorisedOperationInCurrentPhase,
    /// The signer must be the authority that deployed the protocol.
    NotUpgradeAuthority,
    /// The record to create already exists.
    AccountAlreadyInitialized,
    /// The named record does not exist.
    AccountNotInitialized,
    /// The position does not belong to the named campaign.
    InvalidPosition,
}

} // verus!
