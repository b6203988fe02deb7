use solana_nft_anchor::accounts::{AccountRef, InitNFT};
use solana_nft_anchor::address::{
    Address, ASSOCIATED_TOKEN_PROGRAM_ID, RENT_SYSVAR_ID, SYSTEM_PROGRAM_ID,
    TOKEN_METADATA_PROGRAM_ID, TOKEN_PROGRAM_ID,
};
use solana_nft_anchor::derivation::{
    find_associated_token_account, find_master_edition_account, find_metadata_account,
};
use solana_nft_anchor::error::{Check, Field, NftError, Step};
use solana_nft_anchor::init_nft;
use solana_nft_anchor::issuance::process_instruction;
use solana_nft_anchor::ledger::{Ledger, Rent};
use solana_nft_anchor::records::{AssetMint, EditionRecord, HoldingAccount};

const RENT: Rent = Rent { mint: 1_461_600, holding: 2_039_280, metadata: 5_616_720, edition: 2_853_600 };

fn key(n: u8) -> Address {
    Address::new([n; 32])
}

fn program(bytes: [u8; 32]) -> AccountRef {
    AccountRef { address: Address::new(bytes), is_signer: false, is_writable: false }
}

fn writable(address: Address) -> AccountRef {
    AccountRef { address, is_signer: false, is_writable: true }
}

fn request(identity: Address, mint: Address) -> InitNFT {
    InitNFT {
        signer: AccountRef { address: identity, is_signer: true, is_writable: true },
        mint: AccountRef { address: mint, is_signer: true, is_writable: true },
        associated_token_account: writable(find_associated_token_account(&identity, &mint).unwrap().0),
        metadata_account: writable(find_metadata_account(&mint).unwrap().0),
        master_edition_account: writable(find_master_edition_account(&mint).unwrap().0),
        token_program: program(TOKEN_PROGRAM_ID),
        associated_token_program: program(ASSOCIATED_TOKEN_PROGRAM_ID),
        token_metadata_program: program(TOKEN_METADATA_PROGRAM_ID),
        system_program: program(SYSTEM_PROGRAM_ID),
        rent: program(RENT_SYSVAR_ID),
    }
}

fn funded(identity: Address, amount: u64) -> Ledger {
    let mut ledger = Ledger::new(RENT);
    ledger.fund(identity, amount);
    ledger
}

fn issue(ledger: &mut Ledger, accounts: &InitNFT, name: &str, symbol: &str, uri: &str) -> Result<(), NftError> {
    init_nft(ledger, accounts, name.to_string(), symbol.to_string(), uri.to_string())
}

fn nothing_created(ledger: &Ledger, accounts: &InitNFT) -> bool {
    ledger.mint(&accounts.mint.address).is_none()
        && ledger.holding(&accounts.associated_token_account.address).is_none()
        && ledger.metadata(&accounts.metadata_account.address).is_none()
        && ledger.edition(&accounts.master_edition_account.address).is_none()
}

#[test]
fn fresh_identity_and_mint_succeed() {
    let identity = key(1);
    let accounts = request(identity, key(2));
    let mut ledger = funded(identity, 20_000_000);
    let result = issue(&mut ledger, &accounts, "Test NFT", "TNFT", "https://example.com/1.json");
    assert_eq!(result, Ok(()));

    let mint = ledger.mint(&key(2)).unwrap();
    assert_eq!(
        mint,
        AssetMint { decimals: 0, mint_authority: identity, freeze_authority: identity, supply: 1 }
    );
    let holding = ledger.holding(&accounts.associated_token_account.address).unwrap();
    assert_eq!(holding, HoldingAccount { owner: identity, mint: key(2), balance: 1 });
    let metadata = ledger.metadata(&accounts.metadata_account.address).unwrap();
    assert_eq!(metadata.mint, key(2));
    assert_eq!(metadata.update_authority, identity);
    assert_eq!(metadata.data.name, "Test NFT");
    assert_eq!(metadata.data.symbol, "TNFT");
    assert_eq!(metadata.data.uri, "https://example.com/1.json");
    assert_eq!(metadata.data.seller_fee_basis_points, 0);
    assert_eq!(metadata.data.creators, None);
    assert_eq!(metadata.data.collection, None);
    assert_eq!(metadata.data.uses, None);
    assert!(metadata.is_mutable);
    let edition = ledger.edition(&accounts.master_edition_account.address).unwrap();
    assert_eq!(edition, EditionRecord { mint: key(2), max_supply: None });
}

#[test]
fn second_call_is_already_initialized() {
    let identity = key(1);
    let accounts = request(identity, key(2));
    let mut ledger = funded(identity, 50_000_000);
    assert_eq!(issue(&mut ledger, &accounts, "Test NFT", "TNFT", "https://example.com/1.json"), Ok(()));
    let balance = ledger.balance(&identity);
    let second = issue(&mut ledger, &accounts, "Test NFT", "TNFT", "https://example.com/1.json");
    assert_eq!(second, Err(NftError::AlreadyInitialized(Step::InitializeMint)));

    assert_eq!(ledger.balance(&identity), balance);
    assert_eq!(ledger.mint(&key(2)).unwrap().supply, 1);
    assert_eq!(ledger.holding(&accounts.associated_token_account.address).unwrap().balance, 1);
    let metadata = ledger.metadata(&accounts.metadata_account.address).unwrap();
    assert_eq!(metadata.data.name, "Test NFT");
    assert_eq!(metadata.data.uri, "https://example.com/1.json");
    assert!(ledger.edition(&accounts.master_edition_account.address).is_some());
}

#[test]
fn long_uri_is_payload_too_large() {
    let identity = key(1);
    let accounts = request(identity, key(2));
    let mut ledger = funded(identity, 20_000_000);
    let uri = "u".repeat(201);
    let result = issue(&mut ledger, &accounts, "Test NFT", "TNFT", &uri);
    assert_eq!(result, Err(NftError::PayloadTooLarge(Field::Uri)));
    assert!(nothing_created(&ledger, &accounts));
    assert_eq!(ledger.balance(&identity), 20_000_000);
}

#[test]
fn wrong_metadata_address_is_a_constraint_violation() {
    let identity = key(1);
    let mut accounts = request(identity, key(2));
    accounts.metadata_account.address = key(77);
    let mut ledger = funded(identity, 20_000_000);
    let result = issue(&mut ledger, &accounts, "Test NFT", "TNFT", "https://example.com/1.json");
    assert_eq!(result, Err(NftError::ConstraintViolation(Check::MetadataAddress)));
    assert!(nothing_created(&ledger, &accounts));
    assert!(ledger.metadata(&find_metadata_account(&key(2)).unwrap().0).is_none());
    assert_eq!(ledger.balance(&identity), 20_000_000);
}

#[test]
fn wrong_edition_address_is_a_constraint_violation() {
    let identity = key(1);
    let mut accounts = request(identity, key(2));
    accounts.master_edition_account.address = accounts.metadata_account.address;
    let mut ledger = funded(identity, 20_000_000);
    let result = issue(&mut ledger, &accounts, "n", "s", "u");
    assert_eq!(result, Err(NftError::ConstraintViolation(Check::EditionAddress)));
    assert!(nothing_created(&ledger, &accounts));
}

#[test]
fn the_identity_pays_for_the_four_records() {
    let identity = key(1);
    let accounts = request(identity, key(2));
    let mut ledger = funded(identity, 20_000_000);
    assert_eq!(issue(&mut ledger, &accounts, "n", "s", "u"), Ok(()));
    assert_eq!(ledger.balance(&identity), 8_028_800);
    assert_eq!(ledger.rent(), RENT);
}

#[test]
fn the_exact_cost_is_enough() {
    let identity = key(1);
    let accounts = request(identity, key(2));
    let mut ledger = funded(identity, 11_971_200);
    assert_eq!(issue(&mut ledger, &accounts, "n", "s", "u"), Ok(()));
    assert_eq!(ledger.balance(&identity), 0);
}

#[test]
fn each_record_needs_its_rent() {
    let identity = key(1);
    let accounts = request(identity, key(2));
    let cases = [
        (0, Step::InitializeMint),
        (1_461_599, Step::InitializeMint),
        (1_461_600, Step::ProvisionHolding),
        (3_500_879, Step::ProvisionHolding),
        (3_500_880, Step::RegisterMetadata),
        (9_117_599, Step::RegisterMetadata),
        (9_117_600, Step::FinalizeEdition),
        (11_971_199, Step::FinalizeEdition),
    ];
    for (amount, step) in cases {
        let mut ledger = funded(identity, amount);
        let result = issue(&mut ledger, &accounts, "n", "s", "u");
        assert_eq!(result, Err(NftError::InsufficientFunds(step)));
        assert!(nothing_created(&ledger, &accounts));
        assert_eq!(ledger.balance(&identity), amount);
    }
}

#[test]
fn an_identity_without_funds_cannot_pay() {
    let accounts = request(key(1), key(2));
    let mut ledger = Ledger::new(RENT);
    assert_eq!(
        issue(&mut ledger, &accounts, "n", "s", "u"),
        Err(NftError::InsufficientFunds(Step::InitializeMint))
    );
}

#[test]
fn free_allocation_needs_no_funds() {
    let accounts = request(key(1), key(2));
    let mut ledger = Ledger::new(Rent { mint: 0, holding: 0, metadata: 0, edition: 0 });
    assert_eq!(issue(&mut ledger, &accounts, "n", "s", "u"), Ok(()));
    assert_eq!(ledger.balance(&key(1)), 0);
    assert_eq!(ledger.mint(&key(2)).unwrap().supply, 1);
}

#[test]
fn payload_limits_count_bytes() {
    let identity = key(1);
    let accounts = request(identity, key(2));
    let at_limit = ("n".repeat(32), "s".repeat(10), "u".repeat(200));
    let mut ledger = funded(identity, 20_000_000);
    assert_eq!(issue(&mut ledger, &accounts, &at_limit.0, &at_limit.1, &at_limit.2), Ok(()));

    let cases = [
        ("n".repeat(33), "s".to_string(), "u".to_string(), Field::Name),
        ("n".to_string(), "s".repeat(11), "u".to_string(), Field::Symbol),
        ("n".to_string(), "s".to_string(), "u".repeat(201), Field::Uri),
        ("\u{e9}".repeat(17), "s".to_string(), "u".to_string(), Field::Name),
        ("n".repeat(33), "s".repeat(11), "u".repeat(201), Field::Name),
        ("n".to_string(), "s".repeat(11), "u".repeat(201), Field::Symbol),
    ];
    for (name, symbol, uri, field) in cases {
        let mut ledger = funded(identity, 20_000_000);
        let result = issue(&mut ledger, &accounts, &name, &symbol, &uri);
        assert_eq!(result, Err(NftError::PayloadTooLarge(field)));
        assert!(nothing_created(&ledger, &accounts));
    }
    let mut ledger = funded(identity, 20_000_000);
    assert_eq!(issue(&mut ledger, &accounts, &"\u{e9}".repeat(16), "s", "u"), Ok(()));
}

#[test]
fn checks_come_before_steps() {
    let identity = key(1);
    let mut accounts = request(identity, key(2));
    accounts.rent.address = key(9);
    let mut ledger = Ledger::new(RENT);
    let result = issue(&mut ledger, &accounts, &"n".repeat(40), "s", "u");
    assert_eq!(result, Err(NftError::ConstraintViolation(Check::RentSysvar)));
}

#[test]
fn funds_are_asked_for_before_the_payload_is_measured() {
    let identity = key(1);
    let accounts = request(identity, key(2));
    let mut ledger = funded(identity, 100);
    let result = issue(&mut ledger, &accounts, &"n".repeat(40), "s", "u");
    assert_eq!(result, Err(NftError::InsufficientFunds(Step::InitializeMint)));
}

#[test]
fn two_mints_of_one_identity_do_not_interfere() {
    let identity = key(1);
    let first = request(identity, key(2));
    let second = request(identity, key(3));
    let mut ledger = funded(identity, 30_000_000);
    assert_eq!(issue(&mut ledger, &first, "First", "A", "a"), Ok(()));
    assert_eq!(issue(&mut ledger, &second, "Second", "B", "b"), Ok(()));
    assert_eq!(ledger.balance(&identity), 30_000_000 - 2 * 11_971_200);
    assert_eq!(ledger.mint(&key(2)).unwrap().supply, 1);
    assert_eq!(ledger.mint(&key(3)).unwrap().supply, 1);
    assert_eq!(ledger.metadata(&first.metadata_account.address).unwrap().data.name, "First");
    assert_eq!(ledger.metadata(&second.metadata_account.address).unwrap().data.name, "Second");
    assert_ne!(first.associated_token_account.address, second.associated_token_account.address);
}

#[test]
fn a_failed_second_issuance_leaves_the_first_alone() {
    let identity = key(1);
    let first = request(identity, key(2));
    let second = request(identity, key(3));
    let mut ledger = funded(identity, 11_971_200 + 9_117_600);
    assert_eq!(issue(&mut ledger, &first, "First", "A", "a"), Ok(()));
    let result = issue(&mut ledger, &second, "Second", "B", "b");
    assert_eq!(result, Err(NftError::InsufficientFunds(Step::FinalizeEdition)));
    assert!(nothing_created(&ledger, &second));
    assert_eq!(ledger.balance(&identity), 9_117_600);
    assert_eq!(ledger.mint(&key(2)).unwrap().supply, 1);
}

#[test]
fn a_holding_slot_taken_for_another_pair_is_refused() {
    let identity = key(1);
    let other = key(5);
    let accounts = request(identity, key(2));
    let foreign = find_associated_token_account(&other, &key(2)).unwrap().0;
    let mut wrong = accounts;
    wrong.associated_token_account.address = foreign;
    let mut ledger = funded(identity, 20_000_000);
    let result = issue(&mut ledger, &wrong, "n", "s", "u");
    assert_eq!(result, Err(NftError::ConstraintViolation(Check::HoldingLinked)));
    assert!(nothing_created(&ledger, &wrong));
}

#[test]
fn snapshot_is_independent_of_the_ledger() {
    let identity = key(1);
    let accounts = request(identity, key(2));
    let mut ledger = funded(identity, 20_000_000);
    let before = ledger.snapshot();
    assert_eq!(issue(&mut ledger, &accounts, "n", "s", "u"), Ok(()));
    assert!(before.mint(&key(2)).is_none());
    assert_eq!(before.balance(&identity), 20_000_000);
    let after = ledger.snapshot();
    assert_eq!(after.mint(&key(2)), ledger.mint(&key(2)));
    assert_eq!(after.balance(&identity), 8_028_800);
    assert_eq!(
        after.metadata(&accounts.metadata_account.address),
        ledger.metadata(&accounts.metadata_account.address)
    );
}

#[test]
fn fund_sets_the_balance() {
    let mut ledger = Ledger::new(RENT);
    assert_eq!(ledger.balance(&key(1)), 0);
    ledger.fund(key(1), 5);
    ledger.fund(key(2), 7);
    ledger.fund(key(1), 3);
    assert_eq!(ledger.balance(&key(1)), 3);
    assert_eq!(ledger.balance(&key(2)), 7);
    ledger.always_sound();
}

#[test]
fn the_entry_point_binds_the_positional_list() {
    let identity = key(1);
    let accounts = request(identity, key(2));
    let mut list = vec![
        accounts.signer,
        accounts.mint,
        accounts.associated_token_account,
        accounts.metadata_account,
        accounts.master_edition_account,
        accounts.token_program,
        accounts.associated_token_program,
        accounts.token_metadata_program,
        accounts.system_program,
    ];
    let mut ledger = funded(identity, 20_000_000);
    let short = process_instruction(&mut ledger, &list, "n".to_string(), "s".to_string(), "u".to_string());
    assert_eq!(short, Err(NftError::ConstraintViolation(Check::AccountList)));
    assert!(nothing_created(&ledger, &accounts));

    list.push(accounts.rent);
    list.swap(0, 1);
    let swapped = process_instruction(&mut ledger, &list, "n".to_string(), "s".to_string(), "u".to_string());
    assert_eq!(swapped, Err(NftError::ConstraintViolation(Check::HoldingLinked)));
    assert!(nothing_created(&ledger, &accounts));

    list.swap(0, 1);
    let done = process_instruction(&mut ledger, &list, "n".to_string(), "s".to_string(), "u".to_string());
    assert_eq!(done, Ok(()));
    assert_eq!(ledger.mint(&key(2)).unwrap().supply, 1);
    assert_eq!(ledger.balance(&identity), 8_028_800);
}
