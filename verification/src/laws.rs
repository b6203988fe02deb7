//! What holds of every issuance, stated over the ledger as a mathematical
//! value.

use vstd::prelude::*;
use crate::accounts::{AccountRef, InitNFT};
use crate::address::Address;
use crate::derivation::{edition_slot, metadata_slot};
use crate::error::{Check, NftError, Step};
use crate::flow::{steps_left, FlowState, FlowView};
use crate::issuance::{issue, lemma_issue_in_closed_form, lemma_validated_start, run_from};
use crate::ledger::{request_effect, request_failure, request_outcome, sound, LedgerState};
use crate::request::{HoldingRequest, RequestView};

verus! {

/// After a successful issuance the mint exists, cannot be divided, and has
/// exactly one unit issued.
pub proof fn lemma_one_indivisible_unit(
    s: LedgerState,
    accounts: InitNFT,
    name: Seq<char>,
    symbol: Seq<char>,
    uri: Seq<char>,
)
    ensures
        issue(s, accounts, name, symbol, uri) matches Ok(t) ==> {
            &&& t.mints.contains_key(accounts.mint.address)
            &&& t.mints[accounts.mint.address].decimals == 0
            &&& t.mints[accounts.mint.address].supply == 1
        },
{
    reveal_with_fuel(run_from, 6);
}

/// After a successful issuance the metadata record and the edition record of
/// the mint exist at the addresses derived from the mint, which are the
/// addresses that the request named.
pub proof fn lemma_records_at_derived_addresses(
    s: LedgerState,
    accounts: InitNFT,
    name: Seq<char>,
    symbol: Seq<char>,
    uri: Seq<char>,
)
    ensures
        issue(s, accounts, name, symbol, uri) matches Ok(t) ==> {
            &&& metadata_slot(accounts.mint.address) == Some(accounts.metadata_account.address)
            &&& edition_slot(accounts.mint.address) == Some(accounts.master_edition_account.address)
            &&& t.metadata.contains_key(accounts.metadata_account.address)
            &&& t.metadata[accounts.metadata_account.address].mint == accounts.mint.address
            &&& t.editions.contains_key(accounts.master_edition_account.address)
            &&& t.editions[accounts.master_edition_account.address].mint == accounts.mint.address
        },
{
    reveal_with_fuel(run_from, 6);
}

/// A request whose metadata or edition account is not at the address derived
/// from the mint is rejected.
pub proof fn lemma_other_address_rejected(
    s: LedgerState,
    accounts: InitNFT,
    name: Seq<char>,
    symbol: Seq<char>,
    uri: Seq<char>,
)
    requires
        metadata_slot(accounts.mint.address) != Some(accounts.metadata_account.address)
            || edition_slot(accounts.mint.address) != Some(accounts.master_edition_account.address),
    ensures
        issue(s, accounts, name, symbol, uri) is Err,
{
}

/// Where a request succeeds, the same request with another address in place
/// of the metadata account fails the check of that address.
pub proof fn lemma_metadata_substitute_refused(
    s: LedgerState,
    accounts: InitNFT,
    other: Address,
    name: Seq<char>,
    symbol: Seq<char>,
    uri: Seq<char>,
)
    requires
        issue(s, accounts, name, symbol, uri) is Ok,
        other != accounts.metadata_account.address,
    ensures
        issue(
            s,
            InitNFT {
                metadata_account: AccountRef { address: other, ..accounts.metadata_account },
                ..accounts
            },
            name,
            symbol,
            uri,
        ) == Err::<LedgerState, NftError>(NftError::ConstraintViolation(Check::MetadataAddress)),
{
}

/// Where a request succeeds, the same request with another address in place
/// of the edition account fails the check of that address.
pub proof fn lemma_edition_substitute_refused(
    s: LedgerState,
    accounts: InitNFT,
    other: Address,
    name: Seq<char>,
    symbol: Seq<char>,
    uri: Seq<char>,
)
    requires
        issue(s, accounts, name, symbol, uri) is Ok,
        other != accounts.master_edition_account.address,
    ensures
        issue(
            s,
            InitNFT {
                master_edition_account: AccountRef { address: other, ..accounts.master_edition_account },
                ..accounts
            },
            name,
            symbol,
            uri,
        ) == Err::<LedgerState, NftError>(NftError::ConstraintViolation(Check::EditionAddress)),
{
}

/// After a successful issuance, another one for the same accounts fails at the
/// check of the mint, whatever its payload: the mint is already initialized.
pub proof fn lemma_second_issuance_refused(
    s: LedgerState,
    accounts: InitNFT,
    name: Seq<char>,
    symbol: Seq<char>,
    uri: Seq<char>,
    name2: Seq<char>,
    symbol2: Seq<char>,
    uri2: Seq<char>,
)
    ensures
        issue(s, accounts, name, symbol, uri) matches Ok(t) ==> issue(t, accounts, name2, symbol2, uri2)
            == Err::<LedgerState, NftError>(NftError::AlreadyInitialized(Step::InitializeMint)),
{
    lemma_one_indivisible_unit(s, accounts, name, symbol, uri);
}

/// An issuance keeps a sound ledger sound.
pub proof fn lemma_issue_keeps_sound(
    s: LedgerState,
    accounts: InitNFT,
    name: Seq<char>,
    symbol: Seq<char>,
    uri: Seq<char>,
)
    requires
        sound(s),
    ensures
        issue(s, accounts, name, symbol, uri) matches Ok(t) ==> sound(t),
{
    lemma_issue_in_closed_form(s, accounts, name, symbol, uri);
    if issue(s, accounts, name, symbol, uri) is Ok {
        lemma_validated_start(s, accounts);
    }
}

/// On a sound ledger an identity has at most one holding account for a mint.
pub proof fn lemma_one_holding_per_pair(s: LedgerState, first: Address, second: Address)
    requires
        sound(s),
        s.holdings.contains_key(first),
        s.holdings.contains_key(second),
        s.holdings[first].owner == s.holdings[second].owner,
        s.holdings[first].mint == s.holdings[second].mint,
    ensures
        first == second,
{
}

/// On a sound ledger no mint has fractional units.
pub proof fn lemma_mints_indivisible(s: LedgerState, mint: Address)
    requires
        sound(s),
        s.mints.contains_key(mint),
    ensures
        s.mints[mint].decimals == 0,
{
}

/// Provisioning a holding account is idempotent: once it has succeeded, the
/// same request succeeds again and changes nothing.
pub proof fn lemma_provisioning_is_idempotent(s: LedgerState, request: HoldingRequest)
    requires
        request_failure(s, RequestView::ProvisionHolding(request)) is None,
    ensures
        ({
            let after = request_effect(s, RequestView::ProvisionHolding(request));
            &&& request_failure(after, RequestView::ProvisionHolding(request)) is None
            &&& request_effect(after, RequestView::ProvisionHolding(request)) == after
        }),
{
}

/// A request that the ledger refuses changes nothing, whatever the step.
pub proof fn lemma_refused_request_changes_nothing(s: LedgerState, request: RequestView)
    requires
        request_failure(s, request) is Some,
    ensures
        request_outcome(s, request) == s,
{
}

/// Every success brings a flow one step closer to its end, and after the last
/// step the edition is finalized.
pub proof fn lemma_flow_progress(flow: FlowView)
    requires
        flow.pending is Some,
        flow.failure is None,
    ensures
        steps_left(flow.advance(Ok(())).pending) == steps_left(flow.pending) - 1,
        flow.advance(Ok(())).failure is None,
        steps_left(flow.pending) == 1 ==> flow.advance(Ok(())).state() == FlowState::EditionFinalized,
{
}

/// An error aborts a flow from any state, and an aborted or finished flow
/// neither asks for anything nor changes any more.
pub proof fn lemma_flow_ends_for_good(flow: FlowView, error: NftError, later: Result<(), NftError>)
    ensures
        flow.pending is Some ==> flow.advance(Err(error)).state() == FlowState::Aborted,
        flow.pending is None ==> flow.request() is None && flow.advance(later) == flow,
        flow.advance(Err(error)).request() is None,
{
}

} // verus!
