//! The requests that the flow sends to the subsystems of the ledger, one type
//! per step.

use vstd::prelude::*;
use crate::address::Address;
use crate::error::Step;
use crate::records::{Payload, PayloadView};

verus! {

/// Asks the token subsystem to create a mint.
#[derive(Clone, Copy, Debug, PartialEq, Eq)]
pub struct MintRequest {
    pub payer: Address,
    pub mint: Address,
    pub decimals: u8,
    pub mint_authority: Address,
    pub freeze_authority: Address,
}

/// Asks for the holding account of `owner` for `mint`, to be created if absent.
#[derive(Clone, Copy, Debug, PartialEq, Eq)]
pub struct HoldingRequest {
    pub payer: Address,
    pub holding: Address,
    pub owner: Address,
    pub mint: Address,
}

/// Asks the token subsystem to issue `amount` units of `mint` into `holding`.
#[derive(Clone, Copy, Debug, PartialEq, Eq)]
pub struct SupplyRequest {
    pub mint: Address,
    pub holding: Address,
    pub authority: Address,
    pub amount: u64,
}

/// Asks the metadata registry to create the metadata record of `mint`.
#[derive(Clone, Debug, PartialEq, Eq)]
pub struct MetadataRequest {
    pub metadata: Address,
    pub mint: Address,
    pub mint_authority: Address,
    pub update_authority: Address,
    pub payer: Address,
    pub data: Payload,
    pub is_mutable: bool,
    pub update_authority_is_signer: bool,
}

/// A metadata request as a mathematical value.
pub struct MetadataRequestView {
    pub metadata: Address,
    pub mint: Address,
    pub mint_authority: Address,
    pub update_authority: Address,
    pub payer: Address,
    pub data: PayloadView,
    pub is_mutable: bool,
    pub update_authority_is_signer: bool,
}

impl View for MetadataRequest {
    type V = MetadataRequestView;

    open spec fn view(&self) -> MetadataRequestView {
        MetadataRequestView {
            metadata: self.metadata,
            mint: self.mint,
            mint_authority: self.mint_authority,
            update_authority: self.update_authority,
            payer: self.payer,
            data: self.data@,
            is_mutable: self.is_mutable,
            update_authority_is_signer: self.update_authority_is_signer,
        }
    }
}

/// Asks the metadata registry to create the edition record of `mint`.
#[derive(Clone, Copy, Debug, PartialEq, Eq)]
pub struct EditionRequest {
    pub edition: Address,
    pub mint: Address,
    pub metadata: Address,
    pub update_authority: Address,
    pub mint_authority: Address,
    pub payer: Address,
    pub max_supply: Option<u64>,
}

/// A request to a subsystem.
#[derive(Clone, Debug, PartialEq, Eq)]
pub enum Request {
    InitializeMint(MintRequest),
    ProvisionHolding(HoldingRequest),
    IssueSupply(SupplyRequest),
    RegisterMetadata(MetadataRequest),
    FinalizeEdition(EditionRequest),
}

/// A request as a mathematical value.
pub enum RequestView {
    InitializeMint(MintRequest),
    ProvisionHolding(HoldingRequest),
    IssueSupply(SupplyRequest),
    RegisterMetadata(MetadataRequestView),
    FinalizeEdition(EditionRequest),
}

impl View for Request {
    type V = RequestView;

    open spec fn view(&self) -> RequestView {
        match *self {
            Request::InitializeMint(r) => RequestView::InitializeMint(r),
            Request::ProvisionHolding(r) => RequestView::ProvisionHolding(r),
            Request::IssueSupply(r) => RequestView::IssueSupply(r),
            Request::RegisterMetadata(r) => RequestView::RegisterMetadata(r@),
            Request::FinalizeEdition(r) => RequestView::FinalizeEdition(r),
        }
    }
}

impl RequestView {
    /// The step that the request belongs to.
    pub open spec fn step(self) -> Step {
        match self {
            RequestView::InitializeMint(_) => Step::InitializeMint,
            RequestView::ProvisionHolding(_) => Step::ProvisionHolding,
            RequestView::IssueSupply(_) => Step::IssueSupply,
            RequestView::RegisterMetadata(_) => Step::RegisterMetadata,
            RequestView::FinalizeEdition(_) => Step::FinalizeEdition,
        }
    }
}

impl Request {
    /// The step that the request belongs to.
    pub fn step(&self) -> (s: Step)
        ensures
            s == self@.step(),
    {
        match self {
            Request::InitializeMint(_) => Step::InitializeMint,
            Request::ProvisionHolding(_) => Step::ProvisionHolding,
            Request::IssueSupply(_) => Step::IssueSupply,
            Request::RegisterMetadata(_) => Step::RegisterMetadata,
            Request::FinalizeEdition(_) => Step::FinalizeEdition,
        }
    }
}

} // verus!
