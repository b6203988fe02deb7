//! The ledger: fee balances and the records of the subsystems, with what each
//! request does to them. A request either fails and changes nothing, or takes
//! effect as a whole.

use vstd::prelude::*;
use crate::address::Address;
use crate::derivation::{edition_slot, holding_slot, metadata_slot};
use crate::error::{Field, NftError, Step};
use crate::records::{
    byte_len, AssetMint, EditionRecord, HoldingAccount, MetadataRecord, MetadataState,
    MAX_NAME_LENGTH, MAX_SYMBOL_LENGTH, MAX_URI_LENGTH,
};
use crate::request::{
    EditionRequest, HoldingRequest, MetadataRequest, MintRequest, Request, RequestView,
    SupplyRequest,
};
use crate::table::Table;

verus! {

/// What the allocation of each kind of record costs its payer.
#[derive(Clone, Copy, Debug, PartialEq, Eq)]
pub struct Rent {
    pub mint: u64,
    pub holding: u64,
    pub metadata: u64,
    pub edition: u64,
}

/// A ledger as a mathematical value: each table as a map by address.
#[verifier::ext_equal]
pub struct LedgerState {
    pub funds: Map<Address, u64>,
    pub mints: Map<Address, AssetMint>,
    pub holdings: Map<Address, HoldingAccount>,
    pub metadata: Map<Address, MetadataState>,
    pub editions: Map<Address, EditionRecord>,
    pub rent: Rent,
}

/// The ledger without any record or balance.
pub open spec fn empty_ledger(rent: Rent) -> LedgerState {
    LedgerState {
        funds: Map::empty(),
        mints: Map::empty(),
        holdings: Map::empty(),
        metadata: Map::empty(),
        editions: Map::empty(),
        rent,
    }
}

/// The fee balance of `who`: nothing where none was ever set.
pub open spec fn balance_of(s: LedgerState, who: Address) -> u64 {
    if s.funds.contains_key(who) {
        s.funds[who]
    } else {
        0
    }
}

/// The ledger after `payer` has paid `cost`.
pub open spec fn charged(s: LedgerState, payer: Address, cost: u64) -> LedgerState
    recommends
        cost <= balance_of(s, payer),
{
    LedgerState { funds: s.funds.insert(payer, (balance_of(s, payer) - cost) as u64), ..s }
}

/// What holds of every ledger: a mint has no fractional units; a holding
/// account lives at the address of its owner and mint, belongs to a mint that
/// exists and holds no more than was issued; metadata and edition records live
/// at the addresses derived from their mint.
pub open spec fn sound(s: LedgerState) -> bool {
    &&& forall|a: Address| #[trigger] s.mints.contains_key(a) ==> s.mints[a].decimals == 0
    &&& forall|a: Address| #[trigger]
        s.holdings.contains_key(a) ==> {
            &&& holding_slot(s.holdings[a].owner, s.holdings[a].mint) == Some(a)
            &&& s.mints.contains_key(s.holdings[a].mint)
            &&& s.holdings[a].balance <= s.mints[s.holdings[a].mint].supply
        }
    &&& forall|a: Address| #[trigger]
        s.metadata.contains_key(a) ==> metadata_slot(s.metadata[a].mint) == Some(a)
    &&& forall|a: Address| #[trigger]
        s.editions.contains_key(a) ==> edition_slot(s.editions[a].mint) == Some(a)
}

/// The first text field of a payload that is longer than the registry allows.
pub open spec fn oversized_field(name: Seq<char>, symbol: Seq<char>, uri: Seq<char>) -> Option<Field> {
    if byte_len(name) > MAX_NAME_LENGTH {
        Some(Field::Name)
    } else if byte_len(symbol) > MAX_SYMBOL_LENGTH {
        Some(Field::Symbol)
    } else if byte_len(uri) > MAX_URI_LENGTH {
        Some(Field::Uri)
    } else {
        None
    }
}

/// What a request needs in order to be made at all: the records it works on
/// exist, the record it creates goes to the address derived for it, a new mint
/// has no fractional units, and the supply stays within `u64`.
pub open spec fn admissible(s: LedgerState, r: RequestView) -> bool {
    match r {
        RequestView::InitializeMint(q) => q.decimals == 0,
        RequestView::ProvisionHolding(q) => {
            &&& s.mints.contains_key(q.mint)
            &&& holding_slot(q.owner, q.mint) == Some(q.holding)
        },
        RequestView::IssueSupply(q) => {
            &&& s.mints.contains_key(q.mint)
            &&& s.holdings.contains_key(q.holding)
            &&& s.holdings[q.holding].mint == q.mint
            &&& s.mints[q.mint].supply + q.amount <= u64::MAX
        },
        RequestView::RegisterMetadata(q) => {
            &&& s.mints.contains_key(q.mint)
            &&& metadata_slot(q.mint) == Some(q.metadata)
        },
        RequestView::FinalizeEdition(q) => {
            &&& s.mints.contains_key(q.mint)
            &&& s.metadata.contains_key(q.metadata)
            &&& edition_slot(q.mint) == Some(q.edition)
        },
    }
}

/// Why the ledger refuses a request, if it does.
pub open spec fn request_failure(s: LedgerState, r: RequestView) -> Option<NftError> {
    match r {
        RequestView::InitializeMint(q) => {
            if s.mints.contains_key(q.mint) {
                Some(NftError::AlreadyInitialized(Step::InitializeMint))
            } else if balance_of(s, q.payer) < s.rent.mint {
                Some(NftError::InsufficientFunds(Step::InitializeMint))
            } else {
                None
            }
        },
        RequestView::ProvisionHolding(q) => {
            if !s.holdings.contains_key(q.holding) && balance_of(s, q.payer) < s.rent.holding {
                Some(NftError::InsufficientFunds(Step::ProvisionHolding))
            } else {
                None
            }
        },
        RequestView::IssueSupply(q) => {
            if q.authority != s.mints[q.mint].mint_authority {
                Some(NftError::AuthorityMismatch(Step::IssueSupply))
            } else {
                None
            }
        },
        RequestView::RegisterMetadata(q) => {
            if let Some(field) = oversized_field(q.data.name, q.data.symbol, q.data.uri) {
                Some(NftError::PayloadTooLarge(field))
            } else if q.mint_authority != s.mints[q.mint].mint_authority {
                Some(NftError::AuthorityMismatch(Step::RegisterMetadata))
            } else if s.metadata.contains_key(q.metadata) {
                Some(NftError::AlreadyInitialized(Step::RegisterMetadata))
            } else if balance_of(s, q.payer) < s.rent.metadata {
                Some(NftError::InsufficientFunds(Step::RegisterMetadata))
            } else {
                None
            }
        },
        RequestView::FinalizeEdition(q) => {
            if q.mint_authority != s.mints[q.mint].mint_authority || q.update_authority
                != s.metadata[q.metadata].update_authority {
                Some(NftError::AuthorityMismatch(Step::FinalizeEdition))
            } else if s.editions.contains_key(q.edition) {
                Some(NftError::AlreadyInitialized(Step::FinalizeEdition))
            } else if balance_of(s, q.payer) < s.rent.edition {
                Some(NftError::InsufficientFunds(Step::FinalizeEdition))
            } else {
                None
            }
        },
    }
}

/// The ledger after a request that it does not refuse.
pub open spec fn request_effect(s: LedgerState, r: RequestView) -> LedgerState {
    match r {
        RequestView::InitializeMint(q) => {
            let mint = AssetMint {
                decimals: q.decimals,
                mint_authority: q.mint_authority,
                freeze_authority: q.freeze_authority,
                supply: 0,
            };
            charged(LedgerState { mints: s.mints.insert(q.mint, mint), ..s }, q.payer, s.rent.mint)
        },
        RequestView::ProvisionHolding(q) => {
            if s.holdings.contains_key(q.holding) {
                s
            } else {
                let holding = HoldingAccount { owner: q.owner, mint: q.mint, balance: 0 };
                charged(
                    LedgerState { holdings: s.holdings.insert(q.holding, holding), ..s },
                    q.payer,
                    s.rent.holding,
                )
            }
        },
        RequestView::IssueSupply(q) => {
            let mint = AssetMint { supply: (s.mints[q.mint].supply + q.amount) as u64, ..s.mints[q.mint] };
            let holding = HoldingAccount {
                balance: (s.holdings[q.holding].balance + q.amount) as u64,
                ..s.holdings[q.holding]
            };
            LedgerState {
                mints: s.mints.insert(q.mint, mint),
                holdings: s.holdings.insert(q.holding, holding),
                ..s
            }
        },
        RequestView::RegisterMetadata(q) => {
            let record = MetadataState {
                mint: q.mint,
                update_authority: q.update_authority,
                data: q.data,
                is_mutable: q.is_mutable,
            };
            charged(
                LedgerState { metadata: s.metadata.insert(q.metadata, record), ..s },
                q.payer,
                s.rent.metadata,
            )
        },
        RequestView::FinalizeEdition(q) => {
            let record = EditionRecord { mint: q.mint, max_supply: q.max_supply };
            charged(
                LedgerState { editions: s.editions.insert(q.edition, record), ..s },
                q.payer,
                s.rent.edition,
            )
        },
    }
}

/// The ledger after a request: as it was where the request is refused.
pub open spec fn request_outcome(s: LedgerState, r: RequestView) -> LedgerState {
    if request_failure(s, r) is None {
        request_effect(s, r)
    } else {
        s
    }
}

/// A request that can be made leaves a sound ledger sound.
pub proof fn lemma_request_keeps_sound(s: LedgerState, r: RequestView)
    requires
        sound(s),
        admissible(s, r),
    ensures
        sound(request_outcome(s, r)),
{
}

/// An in-memory ledger.
pub struct Ledger {
    funds: Table<u64>,
    mints: Table<AssetMint>,
    holdings: Table<HoldingAccount>,
    metadata: Table<MetadataRecord>,
    editions: Table<EditionRecord>,
    rent: Rent,
}

impl View for Ledger {
    type V = LedgerState;

    closed spec fn view(&self) -> LedgerState {
        LedgerState {
            funds: self.funds@,
            mints: self.mints@,
            holdings: self.holdings@,
            metadata: self.metadata@,
            editions: self.editions@,
            rent: self.rent,
        }
    }
}

/// The result of a request with the ledger it leaves.
pub(crate) struct Performed {
    pub ledger: Ledger,
    pub result: Result<(), NftError>,
}

/// The first text field that is longer than the registry allows.
pub fn check_payload_size(name: &String, symbol: &String, uri: &String) -> (r: Option<Field>)
    ensures
        r == oversized_field(name@, symbol@, uri@),
{
    if name.as_str().as_bytes().len() > MAX_NAME_LENGTH {
        Some(Field::Name)
    } else if symbol.as_str().as_bytes().len() > MAX_SYMBOL_LENGTH {
        Some(Field::Symbol)
    } else if uri.as_str().as_bytes().len() > MAX_URI_LENGTH {
        Some(Field::Uri)
    } else {
        None
    }
}

impl Ledger {
    #[verifier::type_invariant]
    closed spec fn is_sound(self) -> bool {
        sound(self@)
    }

    /// A ledger without any record or balance.
    pub fn new(rent: Rent) -> (l: Ledger)
        ensures
            l@ == empty_ledger(rent),
    {
        Ledger {
            funds: Table::new(),
            mints: Table::new(),
            holdings: Table::new(),
            metadata: Table::new(),
            editions: Table::new(),
            rent,
        }
    }

    /// Every ledger is sound: calling this makes the fact known to the caller.
    pub fn always_sound(&self)
        ensures
            sound(self@),
    {
        proof {
            use_type_invariant(self);
        }
    }

    /// A copy of the ledger with the same view.
    pub fn snapshot(&self) -> (l: Ledger)
        ensures
            l@ == self@,
    {
        proof {
            use_type_invariant(self);
        }
        Ledger {
            funds: self.funds.snapshot(),
            mints: self.mints.snapshot(),
            holdings: self.holdings.snapshot(),
            metadata: self.metadata.snapshot(),
            editions: self.editions.snapshot(),
            rent: self.rent,
        }
    }

    /// The costs of allocation on this ledger.
    pub fn rent(&self) -> (r: Rent)
        ensures
            r == self@.rent,
    {
        self.rent
    }

    /// The fee balance of `who`.
    pub fn balance(&self, who: &Address) -> (b: u64)
        ensures
            b == balance_of(self@, *who),
    {
        match self.funds.get(who) {
            Some(b) => *b,
            None => 0,
        }
    }

    /// Sets the fee balance of `who`.
    pub fn fund(&mut self, who: Address, amount: u64)
        ensures
            final(self)@ == (LedgerState { funds: old(self)@.funds.insert(who, amount), ..old(self)@ }),
    {
        let work = self.snapshot();
        proof {
            use_type_invariant(&work);
        }
        let Ledger { funds, mints, holdings, metadata, editions, rent } = work;
        *self = Ledger { funds: funds.insert(who, amount), mints, holdings, metadata, editions, rent };
    }

    /// The mint at `address`, if there is one.
    pub fn mint(&self, address: &Address) -> (r: Option<AssetMint>)
        ensures
            r is Some == self@.mints.contains_key(*address),
            r matches Some(m) ==> m == self@.mints[*address],
    {
        match self.mints.get(address) {
            Some(m) => Some(*m),
            None => None,
        }
    }

    /// The holding account at `address`, if there is one.
    pub fn holding(&self, address: &Address) -> (r: Option<HoldingAccount>)
        ensures
            r is Some == self@.holdings.contains_key(*address),
            r matches Some(h) ==> h == self@.holdings[*address],
    {
        match self.holdings.get(address) {
            Some(h) => Some(*h),
            None => None,
        }
    }

    /// The metadata record at `address`, if there is one.
    pub fn metadata(&self, address: &Address) -> (r: Option<MetadataRecord>)
        ensures
            r is Some == self@.metadata.contains_key(*address),
            r matches Some(m) ==> m@ == self@.metadata[*address],
    {
        match self.metadata.get(address) {
            Some(m) => Some(crate::table::Record::duplicate(m)),
            None => None,
        }
    }

    /// The edition record at `address`, if there is one.
    pub fn edition(&self, address: &Address) -> (r: Option<EditionRecord>)
        ensures
            r is Some == self@.editions.contains_key(*address),
            r matches Some(e) ==> e == self@.editions[*address],
    {
        match self.editions.get(address) {
            Some(e) => Some(*e),
            None => None,
        }
    }

    fn refused(self, error: NftError) -> (p: Performed)
        ensures
            p.ledger@ == self@,
            p.result == Err::<(), NftError>(error),
    {
        Performed { ledger: self, result: Err(error) }
    }

    fn initialize_mint(self, q: &MintRequest) -> (p: Performed)
        requires
            admissible(self@, RequestView::InitializeMint(*q)),
        ensures
            p.ledger@ == request_outcome(self@, RequestView::InitializeMint(*q)),
            p.result is Ok <==> request_failure(self@, RequestView::InitializeMint(*q)) is None,
            p.result matches Err(e) ==> request_failure(self@, RequestView::InitializeMint(*q)) == Some(e),
    {
        proof {
            use_type_invariant(&self);
        }
        if self.mints.contains_key(&q.mint) {
            return self.refused(NftError::AlreadyInitialized(Step::InitializeMint));
        }
        let balance = self.balance(&q.payer);
        if balance < self.rent.mint {
            return self.refused(NftError::InsufficientFunds(Step::InitializeMint));
        }
        let ghost before = self@;
        let Ledger { funds, mints, holdings, metadata, editions, rent } = self;
        let record = AssetMint {
            decimals: q.decimals,
            mint_authority: q.mint_authority,
            freeze_authority: q.freeze_authority,
            supply: 0,
        };
        proof {
            lemma_request_keeps_sound(before, RequestView::InitializeMint(*q));
        }
        let ledger = Ledger {
            funds: funds.insert(q.payer, balance - rent.mint),
            mints: mints.insert(q.mint, record),
            holdings,
            metadata,
            editions,
            rent,
        };
        Performed { ledger, result: Ok(()) }
    }

    fn provision_holding(self, q: &HoldingRequest) -> (p: Performed)
        requires
            admissible(self@, RequestView::ProvisionHolding(*q)),
        ensures
            p.ledger@ == request_outcome(self@, RequestView::ProvisionHolding(*q)),
            p.result is Ok <==> request_failure(self@, RequestView::ProvisionHolding(*q)) is None,
            p.result matches Err(e) ==> request_failure(self@, RequestView::ProvisionHolding(*q)) == Some(e),
    {
        proof {
            use_type_invariant(&self);
        }
        if self.holdings.contains_key(&q.holding) {
            return Performed { ledger: self, result: Ok(()) };
        }
        let balance = self.balance(&q.payer);
        if balance < self.rent.holding {
            return self.refused(NftError::InsufficientFunds(Step::ProvisionHolding));
        }
        let ghost before = self@;
        let Ledger { funds, mints, holdings, metadata, editions, rent } = self;
        let record = HoldingAccount { owner: q.owner, mint: q.mint, balance: 0 };
        proof {
            lemma_request_keeps_sound(before, RequestView::ProvisionHolding(*q));
        }
        let ledger = Ledger {
            funds: funds.insert(q.payer, balance - rent.holding),
            mints,
            holdings: holdings.insert(q.holding, record),
            metadata,
            editions,
            rent,
        };
        Performed { ledger, result: Ok(()) }
    }

    fn issue_supply(self, q: &SupplyRequest) -> (p: Performed)
        requires
            admissible(self@, RequestView::IssueSupply(*q)),
        ensures
            p.ledger@ == request_outcome(self@, RequestView::IssueSupply(*q)),
            p.result is Ok <==> request_failure(self@, RequestView::IssueSupply(*q)) is None,
            p.result matches Err(e) ==> request_failure(self@, RequestView::IssueSupply(*q)) == Some(e),
    {
        proof {
            use_type_invariant(&self);
        }
        let mint = self.mint(&q.mint).unwrap();
        let holding = self.holding(&q.holding).unwrap();
        if !q.authority.same(&mint.mint_authority) {
            return self.refused(NftError::AuthorityMismatch(Step::IssueSupply));
        }
        let ghost before = self@;
        let Ledger { funds, mints, holdings, metadata, editions, rent } = self;
        let issued = AssetMint {
            decimals: mint.decimals,
            mint_authority: mint.mint_authority,
            freeze_authority: mint.freeze_authority,
            supply: mint.supply + q.amount,
        };
        let credited = HoldingAccount {
            owner: holding.owner,
            mint: holding.mint,
            balance: holding.balance + q.amount,
        };
        proof {
            lemma_request_keeps_sound(before, RequestView::IssueSupply(*q));
        }
        let ledger = Ledger {
            funds,
            mints: mints.insert(q.mint, issued),
            holdings: holdings.insert(q.holding, credited),
            metadata,
            editions,
            rent,
        };
        Performed { ledger, result: Ok(()) }
    }

    fn register_metadata(self, q: &MetadataRequest) -> (p: Performed)
        requires
            admissible(self@, RequestView::RegisterMetadata(q@)),
        ensures
            p.ledger@ == request_outcome(self@, RequestView::RegisterMetadata(q@)),
            p.result is Ok <==> request_failure(self@, RequestView::RegisterMetadata(q@)) is None,
            p.result matches Err(e) ==> request_failure(self@, RequestView::RegisterMetadata(q@)) == Some(e),
    {
        proof {
            use_type_invariant(&self);
        }
        if let Some(field) = check_payload_size(&q.data.name, &q.data.symbol, &q.data.uri) {
            return self.refused(NftError::PayloadTooLarge(field));
        }
        let mint = self.mint(&q.mint).unwrap();
        if !q.mint_authority.same(&mint.mint_authority) {
            return self.refused(NftError::AuthorityMismatch(Step::RegisterMetadata));
        }
        if self.metadata.contains_key(&q.metadata) {
            return self.refused(NftError::AlreadyInitialized(Step::RegisterMetadata));
        }
        let balance = self.balance(&q.payer);
        if balance < self.rent.metadata {
            return self.refused(NftError::InsufficientFunds(Step::RegisterMetadata));
        }
        let ghost before = self@;
        let Ledger { funds, mints, holdings, metadata, editions, rent } = self;
        let record = MetadataRecord {
            mint: q.mint,
            update_authority: q.update_authority,
            data: q.data.duplicate(),
            is_mutable: q.is_mutable,
        };
        proof {
            lemma_request_keeps_sound(before, RequestView::RegisterMetadata(q@));
        }
        let ledger = Ledger {
            funds: funds.insert(q.payer, balance - rent.metadata),
            mints,
            holdings,
            metadata: metadata.insert(q.metadata, record),
            editions,
            rent,
        };
        Performed { ledger, result: Ok(()) }
    }

    fn finalize_edition(self, q: &EditionRequest) -> (p: Performed)
        requires
            admissible(self@, RequestView::FinalizeEdition(*q)),
        ensures
            p.ledger@ == request_outcome(self@, RequestView::FinalizeEdition(*q)),
            p.result is Ok <==> request_failure(self@, RequestView::FinalizeEdition(*q)) is None,
            p.result matches Err(e) ==> request_failure(self@, RequestView::FinalizeEdition(*q)) == Some(e),
    {
        proof {
            use_type_invariant(&self);
        }
        let mint = self.mint(&q.mint).unwrap();
        let update_authority = self.metadata.get(&q.metadata).unwrap().update_authority;
        if !q.mint_authority.same(&mint.mint_authority) || !q.update_authority.same(&update_authority) {
            return self.refused(NftError::AuthorityMismatch(Step::FinalizeEdition));
        }
        if self.editions.contains_key(&q.edition) {
            return self.refused(NftError::AlreadyInitialized(Step::FinalizeEdition));
        }
        let balance = self.balance(&q.payer);
        if balance < self.rent.edition {
            return self.refused(NftError::InsufficientFunds(Step::FinalizeEdition));
        }
        let ghost before = self@;
        let Ledger { funds, mints, holdings, metadata, editions, rent } = self;
        let record = EditionRecord { mint: q.mint, max_supply: q.max_supply };
        proof {
            lemma_request_keeps_sound(before, RequestView::FinalizeEdition(*q));
        }
        let ledger = Ledger {
            funds: funds.insert(q.payer, balance - rent.edition),
            mints,
            holdings,
            metadata,
            editions: editions.insert(q.edition, record),
            rent,
        };
        Performed { ledger, result: Ok(()) }
    }

    /// Hands a request to the subsystem that serves it. A refused request
    /// leaves the ledger as it was.
    pub(crate) fn perform(self, request: &Request) -> (p: Performed)
        requires
            admissible(self@, request@),
        ensures
            p.ledger@ == request_outcome(self@, request@),
            p.result is Ok <==> request_failure(self@, request@) is None,
            p.result matches Err(e) ==> request_failure(self@, request@) == Some(e),
    {
        match request {
            Request::InitializeMint(q) => self.initialize_mint(q),
            Request::ProvisionHolding(q) => self.provision_holding(q),
            Request::IssueSupply(q) => self.issue_supply(q),
            Request::RegisterMetadata(q) => self.register_metadata(q),
            Request::FinalizeEdition(q) => self.finalize_edition(q),
        }
    }
}

} // verus!
