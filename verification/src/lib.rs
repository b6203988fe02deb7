//! Issuance of a non-fungible asset on a ledger: account validation, address
//! derivation and the ordered, all-or-nothing chain of creation steps.

pub mod accounts;
pub mod address;
pub mod derivation;
pub mod error;
pub mod flow;
pub mod issuance;
pub mod laws;
pub mod ledger;
pub mod records;
pub mod request;
pub mod table;
pub mod validate;

pub use crate::accounts::InitNFT;
pub use crate::issuance::init_nft;
