//! The constraint validator: every account of a request is held against its
//! role, in one pass and before anything is changed.

use vstd::prelude::*;
use crate::accounts::InitNFT;
use crate::address::{
    Address, ASSOCIATED_TOKEN_PROGRAM_ID, RENT_SYSVAR_ID, SYSTEM_PROGRAM_ID,
    TOKEN_METADATA_PROGRAM_ID, TOKEN_PROGRAM_ID,
};
use crate::derivation::Derived;
use crate::error::{Check, NftError, Step};
use crate::records::HoldingAccount;

verus! {

/// Whether a holding account belongs to the identity and the mint of a request.
pub open spec fn linked(holding: HoldingAccount, accounts: InitNFT) -> bool {
    holding.owner == accounts.signer.address && holding.mint == accounts.mint.address
}

/// The address made of the given bytes.
pub open spec fn canonical(bytes: [u8; 32]) -> Address {
    Address { bytes }
}

/// The first check that a request fails, with its error: none where the
/// request may go on. `mint_exists` says whether the mint's address already
/// holds a mint, `holding` what the holding account's address holds.
pub open spec fn first_violation(
    accounts: InitNFT,
    derived: Derived,
    mint_exists: bool,
    holding: Option<HoldingAccount>,
) -> Option<NftError> {
    if !accounts.signer.is_signer {
        Some(NftError::ConstraintViolation(Check::IdentitySigner))
    } else if !accounts.signer.is_writable {
        Some(NftError::ConstraintViolation(Check::IdentityMutable))
    } else if mint_exists {
        Some(NftError::AlreadyInitialized(Step::InitializeMint))
    } else if derived.holding != Some(accounts.associated_token_account.address) || (holding matches Some(
        h,
    ) && !linked(h, accounts)) {
        Some(NftError::ConstraintViolation(Check::HoldingLinked))
    } else if !accounts.metadata_account.is_writable {
        Some(NftError::ConstraintViolation(Check::MetadataMutable))
    } else if derived.metadata != Some(accounts.metadata_account.address) {
        Some(NftError::ConstraintViolation(Check::MetadataAddress))
    } else if !accounts.master_edition_account.is_writable {
        Some(NftError::ConstraintViolation(Check::EditionMutable))
    } else if derived.edition != Some(accounts.master_edition_account.address) {
        Some(NftError::ConstraintViolation(Check::EditionAddress))
    } else if accounts.token_program.address != canonical(TOKEN_PROGRAM_ID) {
        Some(NftError::ConstraintViolation(Check::TokenSubsystem))
    } else if accounts.associated_token_program.address != canonical(ASSOCIATED_TOKEN_PROGRAM_ID) {
        Some(NftError::ConstraintViolation(Check::HoldingAllocator))
    } else if accounts.token_metadata_program.address != canonical(TOKEN_METADATA_PROGRAM_ID) {
        Some(NftError::ConstraintViolation(Check::MetadataSubsystem))
    } else if accounts.system_program.address != canonical(SYSTEM_PROGRAM_ID) {
        Some(NftError::ConstraintViolation(Check::SystemAllocator))
    } else if accounts.rent.address != canonical(RENT_SYSVAR_ID) {
        Some(NftError::ConstraintViolation(Check::RentSysvar))
    } else {
        None
    }
}

fn is_address(expected: &Option<Address>, actual: &Address) -> (b: bool)
    ensures
        b == (*expected == Some(*actual)),
{
    match expected {
        Some(a) => a.same(actual),
        None => false,
    }
}

fn is_canonical(actual: &Address, bytes: [u8; 32]) -> (b: bool)
    ensures
        b == (*actual == canonical(bytes)),
{
    actual.same(&Address::new(bytes))
}

fn is_linked(holding: &Option<HoldingAccount>, accounts: &InitNFT) -> (b: bool)
    ensures
        b == !(*holding matches Some(h) && !linked(h, *accounts)),
{
    match holding {
        Some(h) => h.owner.same(&accounts.signer.address) && h.mint.same(&accounts.mint.address),
        None => true,
    }
}

/// Holds every account of a request against its role. The checks are made in
/// the order of the accounts, and the first that fails gives the error.
pub fn validate(
    accounts: &InitNFT,
    derived: &Derived,
    mint_exists: bool,
    holding: Option<HoldingAccount>,
) -> (r: Result<(), NftError>)
    ensures
        r == match first_violation(*accounts, *derived, mint_exists, holding) {
            Some(e) => Err::<(), NftError>(e),
            None => Ok::<(), NftError>(()),
        },
{
    if !accounts.signer.is_signer {
        Err(NftError::ConstraintViolation(Check::IdentitySigner))
    } else if !accounts.signer.is_writable {
        Err(NftError::ConstraintViolation(Check::IdentityMutable))
    } else if mint_exists {
        Err(NftError::AlreadyInitialized(Step::InitializeMint))
    } else if !is_address(&derived.holding, &accounts.associated_token_account.address) || !is_linked(
        &holding,
        accounts,
    ) {
        Err(NftError::ConstraintViolation(Check::HoldingLinked))
    } else if !accounts.metadata_account.is_writable {
        Err(NftError::ConstraintViolation(Check::MetadataMutable))
    } else if !is_address(&derived.metadata, &accounts.metadata_account.address) {
        Err(NftError::ConstraintViolation(Check::MetadataAddress))
    } else if !accounts.master_edition_account.is_writable {
        Err(NftError::ConstraintViolation(Check::EditionMutable))
    } else if !is_address(&derived.edition, &accounts.master_edition_account.address) {
        Err(NftError::ConstraintViolation(Check::EditionAddress))
    } else if !is_canonical(&accounts.token_program.address, TOKEN_PROGRAM_ID) {
        Err(NftError::ConstraintViolation(Check::TokenSubsystem))
    } else if !is_canonical(&accounts.associated_token_program.address, ASSOCIATED_TOKEN_PROGRAM_ID) {
        Err(NftError::ConstraintViolation(Check::HoldingAllocator))
    } else if !is_canonical(&accounts.token_metadata_program.address, TOKEN_METADATA_PROGRAM_ID) {
        Err(NftError::ConstraintViolation(Check::MetadataSubsystem))
    } else if !is_canonical(&accounts.system_program.address, SYSTEM_PROGRAM_ID) {
        Err(NftError::ConstraintViolation(Check::SystemAllocator))
    } else if !is_canonical(&accounts.rent.address, RENT_SYSVAR_ID) {
        Err(NftError::ConstraintViolation(Check::RentSysvar))
    } else {
        Ok(())
    }
}

} // verus!
