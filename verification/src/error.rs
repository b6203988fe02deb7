//! The errors of the issuance flow: the kind of failure and the check or step
//! at which it was raised.

use vstd::prelude::*;

verus! {

/// The checks of the constraint validator, in the order in which they are made.
#[derive(Clone, Copy, Debug, PartialEq, Eq, Structural)]
pub enum Check {
    /// The request names all ten accounts.
    AccountList,
    /// The requesting identity signed the request.
    IdentitySigner,
    /// The requesting identity is writable: it pays the fees.
    IdentityMutable,
    /// The holding account is the slot of this identity for this mint.
    HoldingLinked,
    /// The metadata account is writable.
    MetadataMutable,
    /// The metadata account has the address derived from the mint.
    MetadataAddress,
    /// The edition account is writable.
    EditionMutable,
    /// The edition account has the address derived from the mint.
    EditionAddress,
    /// The token subsystem is the canonical one.
    TokenSubsystem,
    /// The allocator of holding accounts is the canonical one.
    HoldingAllocator,
    /// The metadata registry is the canonical one.
    MetadataSubsystem,
    /// The system allocator is the canonical one.
    SystemAllocator,
    /// The rent sysvar is the canonical one.
    RentSysvar,
}

/// The state-changing steps of the flow, in the order in which they run.
#[derive(Clone, Copy, Debug, PartialEq, Eq, Structural)]
pub enum Step {
    InitializeMint,
    ProvisionHolding,
    IssueSupply,
    RegisterMetadata,
    FinalizeEdition,
}

/// The text fields of the descriptive payload.
#[derive(Clone, Copy, Debug, PartialEq, Eq, Structural)]
pub enum Field {
    Name,
    Symbol,
    Uri,
}

/// Why an issuance was aborted.
#[derive(Clone, Copy, Debug, PartialEq, Eq, Structural)]
pub enum NftError {
    /// An account does not meet its role; raised before any mutation.
    ConstraintViolation(Check),
    /// The record that the step creates already exists.
    AlreadyInitialized(Step),
    /// The payer cannot cover the rent of the record that the step creates.
    InsufficientFunds(Step),
    /// A text field is longer than the registry allows.
    PayloadTooLarge(Field),
    /// The step was asked for by an identity other than the mint's authority.
    AuthorityMismatch(Step),
}

} // verus!
