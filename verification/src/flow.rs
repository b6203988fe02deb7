//! The flow as a state machine: which request comes next, and where the answer
//! of the subsystem leads. Whoever runs the flow sends each request and hands
//! back what the subsystem said.

use vstd::prelude::*;
use crate::accounts::InitNFT;
use crate::error::{NftError, Step};
use crate::records::{plain_payload, Payload, PayloadView};
use crate::request::{
    EditionRequest, HoldingRequest, MetadataRequest, MetadataRequestView, MintRequest, Request,
    RequestView, SupplyRequest,
};

verus! {

/// The number of units that the flow issues.
pub const ISSUED_UNITS: u64 = 1;

/// The decimal precision of the mint: the asset cannot be divided.
pub const MINT_DECIMALS: u8 = 0;

/// Where a flow stands.
#[derive(Clone, Copy, Debug, PartialEq, Eq, Structural)]
pub enum FlowState {
    Uninitialized,
    MintCreated,
    SupplyIssued,
    MetadataAttached,
    EditionFinalized,
    Aborted,
}

/// The step that follows `step`, if any.
pub open spec fn next_step(step: Step) -> Option<Step> {
    match step {
        Step::InitializeMint => Some(Step::ProvisionHolding),
        Step::ProvisionHolding => Some(Step::IssueSupply),
        Step::IssueSupply => Some(Step::RegisterMetadata),
        Step::RegisterMetadata => Some(Step::FinalizeEdition),
        Step::FinalizeEdition => None,
    }
}

/// The number of steps still to run.
pub open spec fn steps_left(pending: Option<Step>) -> nat {
    match pending {
        Some(Step::InitializeMint) => 5,
        Some(Step::ProvisionHolding) => 4,
        Some(Step::IssueSupply) => 3,
        Some(Step::RegisterMetadata) => 2,
        Some(Step::FinalizeEdition) => 1,
        None => 0,
    }
}

/// The request of a step. The requesting identity pays for every record and is
/// every authority; one unit is issued; the metadata stays editable; the
/// number of printable copies is not limited.
pub open spec fn request_for(accounts: InitNFT, data: PayloadView, step: Step) -> RequestView {
    let identity = accounts.signer.address;
    let mint = accounts.mint.address;
    match step {
        Step::InitializeMint => RequestView::InitializeMint(
            MintRequest {
                payer: identity,
                mint,
                decimals: MINT_DECIMALS,
                mint_authority: identity,
                freeze_authority: identity,
            },
        ),
        Step::ProvisionHolding => RequestView::ProvisionHolding(
            HoldingRequest {
                payer: identity,
                holding: accounts.associated_token_account.address,
                owner: identity,
                mint,
            },
        ),
        Step::IssueSupply => RequestView::IssueSupply(
            SupplyRequest {
                mint,
                holding: accounts.associated_token_account.address,
                authority: identity,
                amount: ISSUED_UNITS,
            },
        ),
        Step::RegisterMetadata => RequestView::RegisterMetadata(
            MetadataRequestView {
                metadata: accounts.metadata_account.address,
                mint,
                mint_authority: identity,
                update_authority: identity,
                payer: identity,
                data,
                is_mutable: true,
                update_authority_is_signer: true,
            },
        ),
        Step::FinalizeEdition => RequestView::FinalizeEdition(
            EditionRequest {
                edition: accounts.master_edition_account.address,
                mint,
                metadata: accounts.metadata_account.address,
                update_authority: identity,
                mint_authority: identity,
                payer: identity,
                max_supply: None,
            },
        ),
    }
}

/// A flow as a mathematical value.
pub struct FlowView {
    pub accounts: InitNFT,
    pub data: PayloadView,
    /// The step whose request is due: none once the flow has ended.
    pub pending: Option<Step>,
    /// The error that aborted the flow, if one did.
    pub failure: Option<NftError>,
}

impl FlowView {
    /// Where the flow stands.
    pub open spec fn state(self) -> FlowState {
        if self.failure is Some {
            FlowState::Aborted
        } else {
            match self.pending {
                Some(Step::InitializeMint) => FlowState::Uninitialized,
                Some(Step::ProvisionHolding) => FlowState::MintCreated,
                Some(Step::IssueSupply) => FlowState::MintCreated,
                Some(Step::RegisterMetadata) => FlowState::SupplyIssued,
                Some(Step::FinalizeEdition) => FlowState::MetadataAttached,
                None => FlowState::EditionFinalized,
            }
        }
    }

    /// The request that is due.
    pub open spec fn request(self) -> Option<RequestView> {
        match self.pending {
            Some(step) => Some(request_for(self.accounts, self.data, step)),
            None => None,
        }
    }

    /// The flow after the subsystem has answered the request that was due. A
    /// success leads to the next step, an error aborts the flow for good; a
    /// flow that has ended stays as it is.
    pub open spec fn advance(self, outcome: Result<(), NftError>) -> FlowView {
        match self.pending {
            None => self,
            Some(step) => match outcome {
                Ok(_) => FlowView { pending: next_step(step), ..self },
                Err(e) => FlowView { pending: None, failure: Some(e), ..self },
            },
        }
    }
}

/// An issuance in progress.
pub struct Flow {
    accounts: InitNFT,
    data: Payload,
    pending: Option<Step>,
    failure: Option<NftError>,
}

impl View for Flow {
    type V = FlowView;

    closed spec fn view(&self) -> FlowView {
        FlowView {
            accounts: self.accounts,
            data: self.data@,
            pending: self.pending,
            failure: self.failure,
        }
    }
}

impl Flow {
    /// The flow of a request, before its first step.
    pub fn begin(accounts: InitNFT, name: String, symbol: String, uri: String) -> (f: Flow)
        ensures
            f@ == (FlowView {
                accounts,
                data: plain_payload(name@, symbol@, uri@),
                pending: Some(Step::InitializeMint),
                failure: None,
            }),
    {
        Flow {
            accounts,
            data: Payload::plain(name, symbol, uri),
            pending: Some(Step::InitializeMint),
            failure: None,
        }
    }

    /// Where the flow stands.
    pub fn state(&self) -> (s: FlowState)
        ensures
            s == self@.state(),
    {
        if self.failure.is_some() {
            return FlowState::Aborted;
        }
        match self.pending {
            Some(Step::InitializeMint) => FlowState::Uninitialized,
            Some(Step::ProvisionHolding) => FlowState::MintCreated,
            Some(Step::IssueSupply) => FlowState::MintCreated,
            Some(Step::RegisterMetadata) => FlowState::SupplyIssued,
            Some(Step::FinalizeEdition) => FlowState::MetadataAttached,
            None => FlowState::EditionFinalized,
        }
    }

    /// The step whose request is due.
    pub fn pending(&self) -> (s: Option<Step>)
        ensures
            s == self@.pending,
    {
        self.pending
    }

    /// The error that aborted the flow, if one did.
    pub fn failure(&self) -> (e: Option<NftError>)
        ensures
            e == self@.failure,
    {
        self.failure
    }

    /// The request that is due: none once the flow has ended.
    pub fn request(&self) -> (r: Option<Request>)
        ensures
            r is Some == self@.request() is Some,
            r matches Some(q) ==> Some(q@) == self@.request(),
    {
        let identity = self.accounts.signer.address;
        let mint = self.accounts.mint.address;
        match self.pending {
            None => None,
            Some(Step::InitializeMint) => Some(
                Request::InitializeMint(
                    MintRequest {
                        payer: identity,
                        mint,
                        decimals: MINT_DECIMALS,
                        mint_authority: identity,
                        freeze_authority: identity,
                    },
                ),
            ),
            Some(Step::ProvisionHolding) => Some(
                Request::ProvisionHolding(
                    HoldingRequest {
                        payer: identity,
                        holding: self.accounts.associated_token_account.address,
                        owner: identity,
                        mint,
                    },
                ),
            ),
            Some(Step::IssueSupply) => Some(
                Request::IssueSupply(
                    SupplyRequest {
                        mint,
                        holding: self.accounts.associated_token_account.address,
                        authority: identity,
                        amount: ISSUED_UNITS,
                    },
                ),
            ),
            Some(Step::RegisterMetadata) => Some(
                Request::RegisterMetadata(
                    MetadataRequest {
                        metadata: self.accounts.metadata_account.address,
                        mint,
                        mint_authority: identity,
                        update_authority: identity,
                        payer: identity,
                        data: self.data.duplicate(),
                        is_mutable: true,
                        update_authority_is_signer: true,
                    },
                ),
            ),
            Some(Step::FinalizeEdition) => Some(
                Request::FinalizeEdition(
                    EditionRequest {
                        edition: self.accounts.master_edition_account.address,
                        mint,
                        metadata: self.accounts.metadata_account.address,
                        update_authority: identity,
                        mint_authority: identity,
                        payer: identity,
                        max_supply: None,
                    },
                ),
            ),
        }
    }

    /// The flow after the subsystem has answered the request that was due.
    pub fn advance(self, outcome: Result<(), NftError>) -> (f: Flow)
        ensures
            f@ == self@.advance(outcome),
    {
        let step = match self.pending {
            Some(step) => step,
            None => {
                return self;
            },
        };
        match outcome {
            Ok(_) => {
                let next = match step {
                    Step::InitializeMint => Some(Step::ProvisionHolding),
                    Step::ProvisionHolding => Some(Step::IssueSupply),
                    Step::IssueSupply => Some(Step::RegisterMetadata),
                    Step::RegisterMetadata => Some(Step::FinalizeEdition),
                    Step::FinalizeEdition => None,
                };
                Flow { accounts: self.accounts, data: self.data, pending: next, failure: self.failure }
            },
            Err(e) => Flow {
                accounts: self.accounts,
                data: self.data,
                pending: None,
                failure: Some(e),
            },
        }
    }
}

} // verus!
