//! The records that the flow creates on the ledger.

use vstd::prelude::*;
use vstd::utf8::encode_utf8;
use crate::address::Address;
use crate::table::Record;

verus! {

/// The longest name, in bytes, that the metadata registry stores.
pub const MAX_NAME_LENGTH: usize = 32;

/// The longest symbol, in bytes, that the metadata registry stores.
pub const MAX_SYMBOL_LENGTH: usize = 10;

/// The longest locator, in bytes, that the metadata registry stores.
pub const MAX_URI_LENGTH: usize = 200;

/// The length of a text in bytes.
pub open spec fn byte_len(text: Seq<char>) -> nat {
    encode_utf8(text).len()
}

/// The record of an asset class.
#[derive(Clone, Copy, Debug, PartialEq, Eq)]
pub struct AssetMint {
    pub decimals: u8,
    pub mint_authority: Address,
    pub freeze_authority: Address,
    pub supply: u64,
}

impl View for AssetMint {
    type V = AssetMint;

    open spec fn view(&self) -> AssetMint {
        *self
    }
}

impl Record for AssetMint {
    fn duplicate(&self) -> (r: AssetMint) {
        *self
    }
}

/// The balance slot of one identity for one mint.
#[derive(Clone, Copy, Debug, PartialEq, Eq)]
pub struct HoldingAccount {
    pub owner: Address,
    pub mint: Address,
    pub balance: u64,
}

impl View for HoldingAccount {
    type V = HoldingAccount;

    open spec fn view(&self) -> HoldingAccount {
        *self
    }
}

impl Record for HoldingAccount {
    fn duplicate(&self) -> (r: HoldingAccount) {
        *self
    }
}

/// A creator of an asset with the share of the royalty that goes to it.
#[derive(Clone, Copy, Debug, PartialEq, Eq)]
pub struct Creator {
    pub address: Address,
    pub verified: bool,
    pub share: u8,
}

/// The collection that an asset belongs to.
#[derive(Clone, Copy, Debug, PartialEq, Eq)]
pub struct Collection {
    pub verified: bool,
    pub key: Address,
}

/// How the uses of an asset are counted.
#[derive(Clone, Copy, Debug, PartialEq, Eq)]
pub enum UseMethod {
    Burn,
    Multiple,
    Single,
}

/// A restriction on how often an asset can be used.
#[derive(Clone, Copy, Debug, PartialEq, Eq)]
pub struct Uses {
    pub use_method: UseMethod,
    pub remaining: u64,
    pub total: u64,
}

/// The descriptive payload of a metadata record.
#[derive(Clone, Debug, PartialEq, Eq)]
pub struct Payload {
    pub name: String,
    pub symbol: String,
    pub uri: String,
    pub seller_fee_basis_points: u16,
    pub creators: Option<Vec<Creator>>,
    pub collection: Option<Collection>,
    pub uses: Option<Uses>,
}

/// A payload as a mathematical value.
pub struct PayloadView {
    pub name: Seq<char>,
    pub symbol: Seq<char>,
    pub uri: Seq<char>,
    pub seller_fee_basis_points: u16,
    pub creators: Option<Seq<Creator>>,
    pub collection: Option<Collection>,
    pub uses: Option<Uses>,
}

impl View for Payload {
    type V = PayloadView;

    open spec fn view(&self) -> PayloadView {
        PayloadView {
            name: self.name@,
            symbol: self.symbol@,
            uri: self.uri@,
            seller_fee_basis_points: self.seller_fee_basis_points,
            creators: match self.creators {
                Some(list) => Some(list@),
                None => None,
            },
            collection: self.collection,
            uses: self.uses,
        }
    }
}

/// The payload of an asset that pays no royalty and names no creator, no
/// collection and no usage restriction.
pub open spec fn plain_payload(name: Seq<char>, symbol: Seq<char>, uri: Seq<char>) -> PayloadView {
    PayloadView {
        name,
        symbol,
        uri,
        seller_fee_basis_points: 0,
        creators: None,
        collection: None,
        uses: None,
    }
}

fn copy_creators(list: &Vec<Creator>) -> (r: Vec<Creator>)
    ensures
        r@ == list@,
{
    let mut r: Vec<Creator> = Vec::new();
    let mut i: usize = 0;
    while i < list.len()
        invariant
            i <= list@.len(),
            r@ == list@.take(i as int),
        decreases list@.len() - i,
    {
        r.push(list[i]);
        assert(list@.take(i + 1) =~= list@.take(i as int).push(list@[i as int]));
        i += 1;
    }
    assert(list@.take(list@.len() as int) =~= list@);
    r
}

impl Payload {
    /// The payload of an asset that pays no royalty and names no creator, no
    /// collection and no usage restriction.
    pub fn plain(name: String, symbol: String, uri: String) -> (p: Payload)
        ensures
            p@ == plain_payload(name@, symbol@, uri@),
    {
        Payload {
            name,
            symbol,
            uri,
            seller_fee_basis_points: 0,
            creators: None,
            collection: None,
            uses: None,
        }
    }

    /// A copy with the same view.
    pub fn duplicate(&self) -> (r: Payload)
        ensures
            r@ == self@,
    {
        let creators = match &self.creators {
            Some(list) => Some(copy_creators(list)),
            None => None,
        };
        Payload {
            name: self.name.clone(),
            symbol: self.symbol.clone(),
            uri: self.uri.clone(),
            seller_fee_basis_points: self.seller_fee_basis_points,
            creators,
            collection: self.collection,
            uses: self.uses,
        }
    }
}

/// The descriptive record of a mint.
#[derive(Clone, Debug, PartialEq, Eq)]
pub struct MetadataRecord {
    pub mint: Address,
    pub update_authority: Address,
    pub data: Payload,
    pub is_mutable: bool,
}

/// A metadata record as a mathematical value.
pub struct MetadataState {
    pub mint: Address,
    pub update_authority: Address,
    pub data: PayloadView,
    pub is_mutable: bool,
}

impl View for MetadataRecord {
    type V = MetadataState;

    open spec fn view(&self) -> MetadataState {
        MetadataState {
            mint: self.mint,
            update_authority: self.update_authority,
            data: self.data@,
            is_mutable: self.is_mutable,
        }
    }
}

impl Record for MetadataRecord {
    fn duplicate(&self) -> (r: MetadataRecord) {
        MetadataRecord {
            mint: self.mint,
            update_authority: self.update_authority,
            data: self.data.duplicate(),
            is_mutable: self.is_mutable,
        }
    }
}

/// The record that fixes the printing policy of a mint. Without a `max_supply`
/// the number of printable copies is not limited.
#[derive(Clone, Copy, Debug, PartialEq, Eq)]
pub struct EditionRecord {
    pub mint: Address,
    pub max_supply: Option<u64>,
}

impl View for EditionRecord {
    type V = EditionRecord;

    open spec fn view(&self) -> EditionRecord {
        *self
    }
}

impl Record for EditionRecord {
    fn duplicate(&self) -> (r: EditionRecord) {
        *self
    }
}

} // verus!
