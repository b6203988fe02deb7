//! The accounts of a request: ten references in a fixed order, each with the
//! role flags that the caller claims for it.

use vstd::prelude::*;
use crate::address::Address;
use crate::error::{Check, NftError};

verus! {

/// A reference to an account as the request carries it.
#[derive(Clone, Copy, Debug, PartialEq, Eq)]
pub struct AccountRef {
    pub address: Address,
    pub is_signer: bool,
    pub is_writable: bool,
}

/// The number of accounts of a request.
pub const ACCOUNT_COUNT: usize = 10;

/// The accounts of an issuance request, in their positional order.
#[derive(Clone, Copy, Debug, PartialEq, Eq)]
pub struct InitNFT {
    /// The requesting identity: payer and authority.
    pub signer: AccountRef,
    /// The mint to be initialized.
    pub mint: AccountRef,
    /// The holding account of the identity for the mint, created if absent.
    pub associated_token_account: AccountRef,
    /// The metadata record of the mint.
    pub metadata_account: AccountRef,
    /// The edition record of the mint.
    pub master_edition_account: AccountRef,
    /// The token subsystem.
    pub token_program: AccountRef,
    /// The allocator of holding accounts.
    pub associated_token_program: AccountRef,
    /// The metadata registry.
    pub token_metadata_program: AccountRef,
    /// The system allocator.
    pub system_program: AccountRef,
    /// The rent sysvar.
    pub rent: AccountRef,
}

impl InitNFT {
    /// The accounts that a positional list binds: its first ten entries, in order.
    pub open spec fn bound(list: Seq<AccountRef>) -> InitNFT
        recommends
            list.len() >= ACCOUNT_COUNT,
    {
        InitNFT {
            signer: list[0],
            mint: list[1],
            associated_token_account: list[2],
            metadata_account: list[3],
            master_edition_account: list[4],
            token_program: list[5],
            associated_token_program: list[6],
            token_metadata_program: list[7],
            system_program: list[8],
            rent: list[9],
        }
    }

    /// Binds a positional account list to the roles of the request. A list that
    /// leaves an account out is refused; entries after the tenth are not looked at.
    pub fn try_accounts(list: &Vec<AccountRef>) -> (r: Result<InitNFT, NftError>)
        ensures
            list@.len() >= ACCOUNT_COUNT ==> r == Ok::<InitNFT, NftError>(Self::bound(list@)),
            list@.len() < ACCOUNT_COUNT ==> r == Err::<InitNFT, NftError>(
                NftError::ConstraintViolation(Check::AccountList),
            ),
    {
        if list.len() < ACCOUNT_COUNT {
            return Err(NftError::ConstraintViolation(Check::AccountList));
        }
        Ok(
            InitNFT {
                signer: list[0],
                mint: list[1],
                associated_token_account: list[2],
                metadata_account: list[3],
                master_edition_account: list[4],
                token_program: list[5],
                associated_token_program: list[6],
                token_metadata_program: list[7],
                system_program: list[8],
                rent: list[9],
            },
        )
    }
}

} // verus!
