use solana_nft_anchor::accounts::{AccountRef, InitNFT};
use solana_nft_anchor::address::Address;
use solana_nft_anchor::error::{NftError, Step};
use solana_nft_anchor::flow::{Flow, FlowState, ISSUED_UNITS, MINT_DECIMALS};
use solana_nft_anchor::records::{Collection, Creator, Payload, UseMethod, Uses};
use solana_nft_anchor::request::{
    EditionRequest, HoldingRequest, MetadataRequest, MintRequest, Request, SupplyRequest,
};

fn key(n: u8) -> Address {
    Address::new([n; 32])
}

fn account(n: u8) -> AccountRef {
    AccountRef { address: key(n), is_signer: n == 1, is_writable: n <= 5 }
}

fn accounts() -> InitNFT {
    InitNFT {
        signer: account(1),
        mint: account(2),
        associated_token_account: account(3),
        metadata_account: account(4),
        master_edition_account: account(5),
        token_program: account(6),
        associated_token_program: account(7),
        token_metadata_program: account(8),
        system_program: account(9),
        rent: account(10),
    }
}

fn begin() -> Flow {
    Flow::begin(accounts(), "Test NFT".to_string(), "TNFT".to_string(), "uri".to_string())
}

#[test]
fn the_flow_issues_one_indivisible_unit() {
    assert_eq!(ISSUED_UNITS, 1);
    assert_eq!(MINT_DECIMALS, 0);
}

#[test]
fn requests_come_in_the_order_of_the_steps() {
    let mut flow = begin();
    let mut steps = Vec::new();
    let mut states = vec![flow.state()];
    while let Some(request) = flow.request() {
        assert_eq!(flow.pending(), Some(request.step()));
        steps.push(request.step());
        flow = flow.advance(Ok(()));
        states.push(flow.state());
    }
    assert_eq!(
        steps,
        vec![
            Step::InitializeMint,
            Step::ProvisionHolding,
            Step::IssueSupply,
            Step::RegisterMetadata,
            Step::FinalizeEdition,
        ]
    );
    assert_eq!(
        states,
        vec![
            FlowState::Uninitialized,
            FlowState::MintCreated,
            FlowState::MintCreated,
            FlowState::SupplyIssued,
            FlowState::MetadataAttached,
            FlowState::EditionFinalized,
        ]
    );
    assert_eq!(flow.failure(), None);
    assert_eq!(flow.pending(), None);
}

#[test]
fn each_request_names_the_identity_as_payer_and_authority() {
    let mut flow = begin();
    assert_eq!(
        flow.request(),
        Some(Request::InitializeMint(MintRequest {
            payer: key(1),
            mint: key(2),
            decimals: 0,
            mint_authority: key(1),
            freeze_authority: key(1),
        }))
    );
    flow = flow.advance(Ok(()));
    assert_eq!(
        flow.request(),
        Some(Request::ProvisionHolding(HoldingRequest {
            payer: key(1),
            holding: key(3),
            owner: key(1),
            mint: key(2),
        }))
    );
    flow = flow.advance(Ok(()));
    assert_eq!(
        flow.request(),
        Some(Request::IssueSupply(SupplyRequest {
            mint: key(2),
            holding: key(3),
            authority: key(1),
            amount: 1,
        }))
    );
    flow = flow.advance(Ok(()));
    assert_eq!(
        flow.request(),
        Some(Request::RegisterMetadata(MetadataRequest {
            metadata: key(4),
            mint: key(2),
            mint_authority: key(1),
            update_authority: key(1),
            payer: key(1),
            data: Payload {
                name: "Test NFT".to_string(),
                symbol: "TNFT".to_string(),
                uri: "uri".to_string(),
                seller_fee_basis_points: 0,
                creators: None,
                collection: None,
                uses: None,
            },
            is_mutable: true,
            update_authority_is_signer: true,
        }))
    );
    flow = flow.advance(Ok(()));
    assert_eq!(
        flow.request(),
        Some(Request::FinalizeEdition(EditionRequest {
            edition: key(5),
            mint: key(2),
            metadata: key(4),
            update_authority: key(1),
            mint_authority: key(1),
            payer: key(1),
            max_supply: None,
        }))
    );
    flow = flow.advance(Ok(()));
    assert_eq!(flow.request(), None);
}

#[test]
fn an_error_aborts_the_flow_from_any_state() {
    let errors = [
        NftError::AlreadyInitialized(Step::InitializeMint),
        NftError::InsufficientFunds(Step::ProvisionHolding),
        NftError::AuthorityMismatch(Step::IssueSupply),
        NftError::AuthorityMismatch(Step::RegisterMetadata),
        NftError::AlreadyInitialized(Step::FinalizeEdition),
    ];
    for (done, error) in errors.into_iter().enumerate() {
        let mut flow = begin();
        for _ in 0..done {
            flow = flow.advance(Ok(()));
        }
        flow = flow.advance(Err(error));
        assert_eq!(flow.state(), FlowState::Aborted);
        assert_eq!(flow.failure(), Some(error));
        assert_eq!(flow.request(), None);
        assert_eq!(flow.pending(), None);
    }
}

#[test]
fn a_flow_that_has_ended_stays_as_it_is() {
    let mut aborted = begin().advance(Err(NftError::InsufficientFunds(Step::InitializeMint)));
    aborted = aborted.advance(Ok(()));
    assert_eq!(aborted.state(), FlowState::Aborted);
    assert_eq!(aborted.failure(), Some(NftError::InsufficientFunds(Step::InitializeMint)));
    aborted = aborted.advance(Err(NftError::AuthorityMismatch(Step::IssueSupply)));
    assert_eq!(aborted.failure(), Some(NftError::InsufficientFunds(Step::InitializeMint)));

    let mut finished = begin();
    for _ in 0..5 {
        finished = finished.advance(Ok(()));
    }
    assert_eq!(finished.state(), FlowState::EditionFinalized);
    finished = finished.advance(Err(NftError::AuthorityMismatch(Step::IssueSupply)));
    assert_eq!(finished.state(), FlowState::EditionFinalized);
    assert_eq!(finished.failure(), None);
    finished = finished.advance(Ok(()));
    assert_eq!(finished.state(), FlowState::EditionFinalized);
}

#[test]
fn the_plain_payload_names_no_creator_and_pays_no_royalty() {
    let payload = Payload::plain("a".to_string(), "b".to_string(), "c".to_string());
    assert_eq!(
        payload,
        Payload {
            name: "a".to_string(),
            symbol: "b".to_string(),
            uri: "c".to_string(),
            seller_fee_basis_points: 0,
            creators: None,
            collection: None,
            uses: None,
        }
    );
    let full = Payload {
        name: "a".to_string(),
        symbol: "b".to_string(),
        uri: "c".to_string(),
        seller_fee_basis_points: 250,
        creators: Some(vec![
            Creator { address: key(1), verified: true, share: 60 },
            Creator { address: key(2), verified: false, share: 40 },
        ]),
        collection: Some(Collection { verified: false, key: key(3) }),
        uses: Some(Uses { use_method: UseMethod::Multiple, remaining: 4, total: 5 }),
    };
    assert_eq!(full.duplicate(), full);
    assert_eq!(payload.duplicate(), payload);
}
