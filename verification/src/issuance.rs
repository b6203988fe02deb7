//! The issuance itself: the accounts are validated, then the steps run in
//! order on a copy of the ledger, which replaces the ledger only if every step
//! succeeds.

use vstd::prelude::*;
use crate::accounts::{AccountRef, InitNFT, ACCOUNT_COUNT};
use crate::derivation::{derive_addresses, derived_for};
use crate::error::{Check, NftError, Step};
use crate::flow::{next_step, request_for, steps_left, Flow};
use crate::ledger::{
    admissible, balance_of, oversized_field, request_effect, request_failure, sound, Ledger,
    LedgerState,
};
use crate::records::{
    plain_payload, AssetMint, EditionRecord, HoldingAccount, MetadataState, PayloadView,
};
use crate::validate::{first_violation, validate};

verus! {

/// What holds the holding account's address of a request on a ledger.
pub open spec fn holding_at(s: LedgerState, accounts: InitNFT) -> Option<HoldingAccount> {
    let address = accounts.associated_token_account.address;
    if s.holdings.contains_key(address) {
        Some(s.holdings[address])
    } else {
        None
    }
}

/// The check that a request fails on a ledger, with its error, if it fails one.
pub open spec fn violation(s: LedgerState, accounts: InitNFT) -> Option<NftError> {
    first_violation(
        accounts,
        derived_for(accounts),
        s.mints.contains_key(accounts.mint.address),
        holding_at(s, accounts),
    )
}

/// The ledger after the steps from `pending` on, or the error of the first
/// step that fails.
pub open spec fn run_from(
    s: LedgerState,
    accounts: InitNFT,
    data: PayloadView,
    pending: Option<Step>,
) -> Result<LedgerState, NftError>
    decreases steps_left(pending),
{
    match pending {
        None => Ok(s),
        Some(step) => {
            let request = request_for(accounts, data, step);
            match request_failure(s, request) {
                Some(e) => Err(e),
                None => run_from(request_effect(s, request), accounts, data, next_step(step)),
            }
        },
    }
}

/// What an issuance does: the ledger after it, or the error that aborts it.
pub open spec fn issue(
    s: LedgerState,
    accounts: InitNFT,
    name: Seq<char>,
    symbol: Seq<char>,
    uri: Seq<char>,
) -> Result<LedgerState, NftError> {
    match violation(s, accounts) {
        Some(e) => Err(e),
        None => run_from(s, accounts, plain_payload(name, symbol, uri), Some(Step::InitializeMint)),
    }
}

/// Why an issuance on a sound ledger is aborted, if it is: the first check that
/// fails, else the first step that the ledger refuses. The identity pays for
/// the records in the order in which they are created, and the payload is
/// measured when the metadata record is due.
pub open spec fn failure_of(
    s: LedgerState,
    accounts: InitNFT,
    name: Seq<char>,
    symbol: Seq<char>,
    uri: Seq<char>,
) -> Option<NftError> {
    let balance = balance_of(s, accounts.signer.address);
    let rent = s.rent;
    if let Some(e) = violation(s, accounts) {
        Some(e)
    } else if balance < rent.mint {
        Some(NftError::InsufficientFunds(Step::InitializeMint))
    } else if balance - rent.mint < rent.holding {
        Some(NftError::InsufficientFunds(Step::ProvisionHolding))
    } else if let Some(field) = oversized_field(name, symbol, uri) {
        Some(NftError::PayloadTooLarge(field))
    } else if s.metadata.contains_key(accounts.metadata_account.address) {
        Some(NftError::AlreadyInitialized(Step::RegisterMetadata))
    } else if balance - rent.mint - rent.holding < rent.metadata {
        Some(NftError::InsufficientFunds(Step::RegisterMetadata))
    } else if s.editions.contains_key(accounts.master_edition_account.address) {
        Some(NftError::AlreadyInitialized(Step::FinalizeEdition))
    } else if balance - rent.mint - rent.holding - rent.metadata < rent.edition {
        Some(NftError::InsufficientFunds(Step::FinalizeEdition))
    } else {
        None
    }
}

/// The ledger after an issuance on a sound ledger that is not aborted: the
/// identity has paid for the four records; the mint is indivisible, under the
/// identity's authority and has one unit issued; the identity's holding
/// account holds that unit; the metadata record carries the payload and stays
/// editable; the edition record limits no printing.
pub open spec fn committed(
    s: LedgerState,
    accounts: InitNFT,
    name: Seq<char>,
    symbol: Seq<char>,
    uri: Seq<char>,
) -> LedgerState {
    let identity = accounts.signer.address;
    let mint = accounts.mint.address;
    let rent = s.rent;
    let paid = rent.mint + rent.holding + rent.metadata + rent.edition;
    LedgerState {
        funds: s.funds.insert(identity, (balance_of(s, identity) - paid) as u64),
        mints: s.mints.insert(
            mint,
            AssetMint { decimals: 0, mint_authority: identity, freeze_authority: identity, supply: 1 },
        ),
        holdings: s.holdings.insert(
            accounts.associated_token_account.address,
            HoldingAccount { owner: identity, mint, balance: 1 },
        ),
        metadata: s.metadata.insert(
            accounts.metadata_account.address,
            MetadataState {
                mint,
                update_authority: identity,
                data: plain_payload(name, symbol, uri),
                is_mutable: true,
            },
        ),
        editions: s.editions.insert(
            accounts.master_edition_account.address,
            EditionRecord { mint, max_supply: None },
        ),
        rent,
    }
}

/// What the steps that ran have left for the step that is due.
pub open spec fn on_track(s: LedgerState, accounts: InitNFT, pending: Option<Step>) -> bool {
    let mint = accounts.mint.address;
    let holding = accounts.associated_token_account.address;
    match pending {
        Some(Step::InitializeMint) => !s.mints.contains_key(mint) && !s.holdings.contains_key(holding),
        Some(Step::ProvisionHolding) => {
            &&& s.mints.contains_key(mint)
            &&& s.mints[mint].supply == 0
            &&& !s.holdings.contains_key(holding)
        },
        Some(Step::IssueSupply) => {
            &&& s.mints.contains_key(mint)
            &&& s.mints[mint].supply == 0
            &&& s.holdings.contains_key(holding)
            &&& s.holdings[holding].mint == mint
        },
        Some(Step::RegisterMetadata) => s.mints.contains_key(mint),
        Some(Step::FinalizeEdition) => {
            &&& s.mints.contains_key(mint)
            &&& s.metadata.contains_key(accounts.metadata_account.address)
        },
        None => true,
    }
}

/// The accounts of a request that passed validation sit at the derived
/// addresses.
pub open spec fn well_placed(accounts: InitNFT) -> bool {
    let derived = derived_for(accounts);
    &&& derived.holding == Some(accounts.associated_token_account.address)
    &&& derived.metadata == Some(accounts.metadata_account.address)
    &&& derived.edition == Some(accounts.master_edition_account.address)
}

/// On a sound ledger a request that passes validation finds neither its mint
/// nor its holding account, and its accounts sit at the derived addresses.
pub proof fn lemma_validated_start(s: LedgerState, accounts: InitNFT)
    requires
        sound(s),
        violation(s, accounts) is None,
    ensures
        well_placed(accounts),
        on_track(s, accounts, Some(Step::InitializeMint)),
{
}

/// A step that is due on a ledger that is on track can be made, and leaves the
/// ledger on track for the next.
pub proof fn lemma_step_on_track(s: LedgerState, accounts: InitNFT, data: PayloadView, step: Step)
    requires
        sound(s),
        well_placed(accounts),
        on_track(s, accounts, Some(step)),
    ensures
        admissible(s, request_for(accounts, data, step)),
        request_failure(s, request_for(accounts, data, step)) is None ==> on_track(
            request_effect(s, request_for(accounts, data, step)),
            accounts,
            next_step(step),
        ),
{
}

/// On a sound ledger the steps of an issuance, run one after the other, end as
/// `failure_of` and `committed` say.
pub proof fn lemma_issue_in_closed_form(
    s: LedgerState,
    accounts: InitNFT,
    name: Seq<char>,
    symbol: Seq<char>,
    uri: Seq<char>,
)
    requires
        sound(s),
    ensures
        issue(s, accounts, name, symbol, uri) == match failure_of(s, accounts, name, symbol, uri) {
            Some(e) => Err::<LedgerState, NftError>(e),
            None => Ok::<LedgerState, NftError>(committed(s, accounts, name, symbol, uri)),
        },
{
    if violation(s, accounts) is None {
        lemma_validated_start(s, accounts);
        let data = plain_payload(name, symbol, uri);
        reveal_with_fuel(run_from, 6);
        let q1 = request_for(accounts, data, Step::InitializeMint);
        if request_failure(s, q1) is None {
            let s1 = request_effect(s, q1);
            let q2 = request_for(accounts, data, Step::ProvisionHolding);
            if request_failure(s1, q2) is None {
                let s2 = request_effect(s1, q2);
                let q3 = request_for(accounts, data, Step::IssueSupply);
                assert(request_failure(s2, q3) is None);
                let s3 = request_effect(s2, q3);
                let q4 = request_for(accounts, data, Step::RegisterMetadata);
                if request_failure(s3, q4) is None {
                    let s4 = request_effect(s3, q4);
                    let q5 = request_for(accounts, data, Step::FinalizeEdition);
                    if request_failure(s4, q5) is None {
                        let s5 = request_effect(s4, q5);
                        assert(s5 =~= committed(s, accounts, name, symbol, uri));
                    }
                }
            }
        }
    }
}

/// Issues a non-fungible asset on `ledger`: the mint of the request is created
/// with one unit in the identity's holding account, a metadata record and an
/// edition record. Either all of it happens, or the ledger stays as it was and
/// the error says which check or step failed.
pub fn init_nft(
    ledger: &mut Ledger,
    accounts: &InitNFT,
    name: String,
    symbol: String,
    uri: String,
) -> (r: Result<(), NftError>)
    ensures
        r == match failure_of(old(ledger)@, *accounts, name@, symbol@, uri@) {
            Some(e) => Err::<(), NftError>(e),
            None => Ok::<(), NftError>(()),
        },
        r is Ok ==> final(ledger)@ == committed(old(ledger)@, *accounts, name@, symbol@, uri@),
        r is Err ==> final(ledger)@ == old(ledger)@,
        match issue(old(ledger)@, *accounts, name@, symbol@, uri@) {
            Ok(s) => r is Ok && final(ledger)@ == s,
            Err(e) => r == Err::<(), NftError>(e),
        },
{
    ledger.always_sound();
    proof {
        lemma_issue_in_closed_form(ledger@, *accounts, name@, symbol@, uri@);
    }
    let derived = derive_addresses(accounts);
    let mint_exists = ledger.mint(&accounts.mint.address).is_some();
    let holding = ledger.holding(&accounts.associated_token_account.address);
    match validate(accounts, &derived, mint_exists, holding) {
        Err(e) => {
            return Err(e);
        },
        Ok(_) => {},
    }
    let ghost start = ledger@;
    let ghost data = plain_payload(name@, symbol@, uri@);
    let mut flow = Flow::begin(*accounts, name, symbol, uri);
    let mut work = ledger.snapshot();
    proof {
        lemma_validated_start(start, *accounts);
    }
    loop
        invariant
            flow@.accounts == *accounts,
            flow@.data == data,
            well_placed(*accounts),
            flow@.failure is None ==> on_track(work@, *accounts, flow@.pending),
            flow@.failure is None ==> run_from(work@, *accounts, data, flow@.pending) == run_from(
                start,
                *accounts,
                data,
                Some(Step::InitializeMint),
            ),
            flow@.failure matches Some(e) ==> flow@.pending is None && run_from(
                start,
                *accounts,
                data,
                Some(Step::InitializeMint),
            ) == Err::<LedgerState, NftError>(e),
        ensures
            flow@.pending is None,
        decreases steps_left(flow@.pending),
    {
        let request = match flow.request() {
            Some(q) => q,
            None => {
                break ;
            },
        };
        work.always_sound();
        proof {
            lemma_step_on_track(work@, *accounts, data, flow@.pending->Some_0);
        }
        let performed = work.perform(&request);
        work = performed.ledger;
        flow = flow.advance(performed.result);
    }
    match flow.failure() {
        Some(e) => Err(e),
        None => {
            *ledger = work;
            Ok(())
        },
    }
}

/// The entry point of the operation: the accounts come as a positional list.
/// A list that leaves an account out is refused before anything else is looked
/// at; otherwise the list is bound to the roles and the asset is issued as
/// [`init_nft`] says.
pub fn process_instruction(
    ledger: &mut Ledger,
    accounts: &Vec<AccountRef>,
    name: String,
    symbol: String,
    uri: String,
) -> (r: Result<(), NftError>)
    ensures
        accounts@.len() < ACCOUNT_COUNT ==> r == Err::<(), NftError>(
            NftError::ConstraintViolation(Check::AccountList),
        ),
        accounts@.len() >= ACCOUNT_COUNT ==> r == match failure_of(
            old(ledger)@,
            InitNFT::bound(accounts@),
            name@,
            symbol@,
            uri@,
        ) {
            Some(e) => Err::<(), NftError>(e),
            None => Ok::<(), NftError>(()),
        },
        r is Ok ==> final(ledger)@ == committed(
            old(ledger)@,
            InitNFT::bound(accounts@),
            name@,
            symbol@,
            uri@,
        ),
        r is Err ==> final(ledger)@ == old(ledger)@,
{
    match InitNFT::try_accounts(accounts) {
        Err(e) => Err(e),
        Ok(bound) => init_nft(ledger, &bound, name, symbol, uri),
    }
}

} // verus!
