//! The address-keyed record store and the five ledger operations.
//!
//! All records live in one store keyed by derived address; a reference from
//! one record to another is a stored address re-resolved through the same
//! store. The store is an append-only journal of (address, blob) entries
//! whose meaning is the map each address takes from its latest entry, so an
//! operation either applies its whole transition with one appended entry or
//! leaves the store untouched.

use vstd::prelude::*;
use crate::address::{
    asset_seed_list, asset_seeds, loan_seed_list, loan_seeds, spec_derive,
};
use crate::codec::{
    bytes_eq, lemma_asset_round_trip, lemma_loan_round_trip, spec_decode_asset, spec_decode_loan,
    spec_encode_asset, spec_encode_loan, str_field_ok, AssetAccount, AssetModel, LoanAccount,
    LoanModel,
};
use crate::error::{
    AddressDerivationError, CodecError, LedgerError, StateError,
};
use crate::state::{
    spec_create_loan_record, spec_new_asset, spec_repay, spec_liquidate, spec_update_risk,
};

verus! {

/// The record store: an append-only journal of (address, blob) entries.
pub struct Ledger {
    entries: Vec<(Vec<u8>, Vec<u8>)>,
}

/// The map that a journal denotes: each address takes its latest entry.
pub closed spec fn entries_map(s: Seq<(Vec<u8>, Vec<u8>)>) -> Map<Seq<u8>, Seq<u8>>
    decreases s.len(),
{
    if s.len() == 0 {
        Map::empty()
    } else {
        entries_map(s.drop_last()).insert(s.last().0@, s.last().1@)
    }
}

impl View for Ledger {
    type V = Map<Seq<u8>, Seq<u8>>;

    closed spec fn view(&self) -> Map<Seq<u8>, Seq<u8>> {
        entries_map(self.entries@)
    }
}

/// The latest entry with a given key decides that key's value in the map.
proof fn lemma_entries_map_found(s: Seq<(Vec<u8>, Vec<u8>)>, i: int)
    requires
        0 <= i < s.len(),
        forall|j: int| i < j < s.len() ==> s[j].0@ != s[i].0@,
    ensures
        entries_map(s).contains_key(s[i].0@),
        entries_map(s)[s[i].0@] == s[i].1@,
    decreases s.len(),
{
    if i < s.len() - 1 {
        lemma_entries_map_found(s.drop_last(), i);
    }
}

/// A key with no entry is absent from the map.
proof fn lemma_entries_map_absent(s: Seq<(Vec<u8>, Vec<u8>)>, k: Seq<u8>)
    requires
        forall|j: int| 0 <= j < s.len() ==> s[j].0@ != k,
    ensures
        !entries_map(s).contains_key(k),
    decreases s.len(),
{
    if s.len() > 0 {
        lemma_entries_map_absent(s.drop_last(), k);
    }
}

impl Ledger {
    /// An empty store.
    pub fn new() -> (r: Ledger)
        ensures
            r@ == Map::<Seq<u8>, Seq<u8>>::empty(),
    {
        Ledger { entries: Vec::new() }
    }

    /// Index of the latest entry stored under `address`, if any.
    fn find_latest(&self, address: &Vec<u8>) -> (r: Option<usize>)
        ensures
            match r {
                Some(i) => i < self.entries@.len() && self.entries@[i as int].0@ == address@
                    && forall|j: int|
                    i < j < self.entries@.len() ==> self.entries@[j].0@ != address@,
                None => forall|j: int|
                    0 <= j < self.entries@.len() ==> self.entries@[j].0@ != address@,
            },
    {
        let mut i: usize = self.entries.len();
        while i > 0
            invariant
                i <= self.entries@.len(),
                forall|j: int| i <= j < self.entries@.len() ==> self.entries@[j].0@ != address@,
            decreases i,
        {
            i = i - 1;
            if bytes_eq(self.entries[i].0.as_slice(), address.as_slice()) {
                return Some(i);
            }
        }
        None
    }

    /// The raw bytes stored under `address`, if any.
    pub fn get(&self, address: &Vec<u8>) -> (r: Option<&Vec<u8>>)
        ensures
            match r {
                Some(v) => self@.contains_key(address@) && v@ == self@[address@],
                None => !self@.contains_key(address@),
            },
    {
        match self.find_latest(address) {
            Some(i) => {
                proof {
                    lemma_entries_map_found(self.entries@, i as int);
                }
                Some(&self.entries[i].1)
            },
            None => {
                proof {
                    lemma_entries_map_absent(self.entries@, address@);
                }
                None
            },
        }
    }

    /// Whether a record occupies `address`.
    pub fn contains(&self, address: &Vec<u8>) -> (r: bool)
        ensures
            r == self@.contains_key(address@),
    {
        match self.get(address) {
            Some(_) => true,
            None => false,
        }
    }

    /// Stores `blob` under `address`, superseding any earlier entry.
    fn set(&mut self, address: Vec<u8>, blob: Vec<u8>)
        ensures
            final(self)@ == old(self)@.insert(address@, blob@),
    {
        let ghost s0 = self.entries@;
        let ghost k = address@;
        let ghost v = blob@;
        self.entries.push((address, blob));
        proof {
            assert(self.entries@.drop_last() =~= s0);
            assert(self.entries@.last().0@ == k);
            assert(self.entries@.last().1@ == v);
        }
    }
}

/// Effect of `initialize_asset` on the store: derive the address from
/// ("asset", asset_id), reject an occupied address, otherwise create the
/// record with the default risk score, active, retaining the bump.
pub open spec fn spec_initialize_asset(
    m: Map<Seq<u8>, Seq<u8>>,
    program_id: Seq<u8>,
    asset_id: Seq<u8>,
    asset_type: Seq<u8>,
    valuation: u64,
    metadata_uri: Seq<u8>,
    owner: Seq<u8>,
) -> (Result<Seq<u8>, LedgerError>, Map<Seq<u8>, Seq<u8>>) {
    match spec_derive(asset_seeds(asset_id), program_id) {
        None => (Err(LedgerError::AddressDerivation(AddressDerivationError)), m),
        Some((addr, bump)) => if m.contains_key(addr) {
            (Err(LedgerError::State(StateError::AlreadyExists)), m)
        } else {
            (
                Ok(addr),
                m.insert(
                    addr,
                    spec_encode_asset(
                        spec_new_asset(asset_id, asset_type, valuation, metadata_uri, owner, bump),
                    ),
                ),
            )
        },
    }
}

/// Effect of `update_risk_score` on the store: resolve the asset, then apply
/// the record transition and store the new encoding; nothing else changes.
pub open spec fn spec_update_risk_score(
    m: Map<Seq<u8>, Seq<u8>>,
    program_id: Seq<u8>,
    asset_id: Seq<u8>,
    new_risk_score: u8,
) -> (Result<(), LedgerError>, Map<Seq<u8>, Seq<u8>>) {
    match spec_derive(asset_seeds(asset_id), program_id) {
        None => (Err(LedgerError::AddressDerivation(AddressDerivationError)), m),
        Some((addr, bump)) => if !m.contains_key(addr) {
            (Err(LedgerError::NotFound), m)
        } else {
            match spec_decode_asset(m[addr]) {
                None => (Err(LedgerError::Codec(CodecError)), m),
                Some(a) => match spec_update_risk(a, new_risk_score) {
                    Err(e) => (Err(e), m),
                    Ok(a2) => (Ok(()), m.insert(addr, spec_encode_asset(a2))),
                },
            }
        },
    }
}

/// Effect of `create_loan` on the store: resolve the asset, derive the loan
/// address from ("loan", asset_address, borrower), reject an occupied
/// address, then apply the issuance transition at the asset's current risk
/// score and store the new record.
pub open spec fn spec_create_loan(
    m: Map<Seq<u8>, Seq<u8>>,
    program_id: Seq<u8>,
    asset_id: Seq<u8>,
    borrower: Seq<u8>,
    loan_amount: u64,
    interest_rate: u64,
    duration: i64,
    now: i64,
) -> (Result<Seq<u8>, LedgerError>, Map<Seq<u8>, Seq<u8>>) {
    match spec_derive(asset_seeds(asset_id), program_id) {
        None => (Err(LedgerError::AddressDerivation(AddressDerivationError)), m),
        Some((asset_addr, _asset_bump)) => if !m.contains_key(asset_addr) {
            (Err(LedgerError::NotFound), m)
        } else {
            match spec_decode_asset(m[asset_addr]) {
                None => (Err(LedgerError::Codec(CodecError)), m),
                Some(a) => match spec_derive(loan_seeds(asset_addr, borrower), program_id) {
                    None => (Err(LedgerError::AddressDerivation(AddressDerivationError)), m),
                    Some((loan_addr, bump)) => if m.contains_key(loan_addr) {
                        (Err(LedgerError::State(StateError::AlreadyExists)), m)
                    } else {
                        match spec_create_loan_record(
                            a,
                            asset_addr,
                            borrower,
                            loan_amount,
                            interest_rate,
                            duration,
                            now,
                            bump,
                        ) {
                            Err(e) => (Err(e), m),
                            Ok(l) => (Ok(loan_addr), m.insert(loan_addr, spec_encode_loan(l))),
                        }
                    },
                },
            }
        },
    }
}

/// Effect of `repay_loan` on the store.
pub open spec fn spec_repay_loan(m: Map<Seq<u8>, Seq<u8>>, loan_address: Seq<u8>) -> (Result<
    (),
    LedgerError,
>, Map<Seq<u8>, Seq<u8>>) {
    if !m.contains_key(loan_address) {
        (Err(LedgerError::NotFound), m)
    } else {
        match spec_decode_loan(m[loan_address]) {
            None => (Err(LedgerError::Codec(CodecError)), m),
            Some(l) => match spec_repay(l) {
                Err(e) => (Err(e), m),
                Ok(l2) => (Ok(()), m.insert(loan_address, spec_encode_loan(l2))),
            },
        }
    }
}

/// Effect of `liquidate_loan` on the store: the collateral is the asset that
/// the loan's stored address names, at its current risk score.
pub open spec fn spec_liquidate_loan(m: Map<Seq<u8>, Seq<u8>>, loan_address: Seq<u8>) -> (Result<
    (),
    LedgerError,
>, Map<Seq<u8>, Seq<u8>>) {
    if !m.contains_key(loan_address) {
        (Err(LedgerError::NotFound), m)
    } else {
        match spec_decode_loan(m[loan_address]) {
            None => (Err(LedgerError::Codec(CodecError)), m),
            Some(l) => if !m.contains_key(l.asset) {
                (Err(LedgerError::NotFound), m)
            } else {
                match spec_decode_asset(m[l.asset]) {
                    None => (Err(LedgerError::Codec(CodecError)), m),
                    Some(a) => match spec_liquidate(l, a) {
                        Err(e) => (Err(e), m),
                        Ok(l2) => (Ok(()), m.insert(loan_address, spec_encode_loan(l2))),
                    },
                }
            },
        }
    }
}

/// The asset record that a read of ("asset", asset_id) yields.
pub open spec fn spec_get_asset(
    m: Map<Seq<u8>, Seq<u8>>,
    program_id: Seq<u8>,
    asset_id: Seq<u8>,
) -> Result<AssetModel, LedgerError> {
    match spec_derive(asset_seeds(asset_id), program_id) {
        None => Err(LedgerError::AddressDerivation(AddressDerivationError)),
        Some((addr, _bump)) => if !m.contains_key(addr) {
            Err(LedgerError::NotFound)
        } else {
            match spec_decode_asset(m[addr]) {
                None => Err(LedgerError::Codec(CodecError)),
                Some(a) => Ok(a),
            }
        },
    }
}

/// The loan record that a read of a loan address yields.
pub open spec fn spec_get_loan(m: Map<Seq<u8>, Seq<u8>>, loan_address: Seq<u8>) -> Result<
    LoanModel,
    LedgerError,
> {
    if !m.contains_key(loan_address) {
        Err(LedgerError::NotFound)
    } else {
        match spec_decode_loan(m[loan_address]) {
            None => Err(LedgerError::Codec(CodecError)),
            Some(l) => Ok(l),
        }
    }
}

/// What is written is read back: an asset record that `initialize_asset`
/// creates at a free address is returned exactly by a following
/// `get_asset`, by the codec round trip.
pub proof fn lemma_initialize_then_get_asset(
    m: Map<Seq<u8>, Seq<u8>>,
    program_id: Seq<u8>,
    asset_id: Seq<u8>,
    asset_type: Seq<u8>,
    valuation: u64,
    metadata_uri: Seq<u8>,
    owner: Seq<u8>,
)
    requires
        str_field_ok(asset_id),
        str_field_ok(asset_type),
        str_field_ok(metadata_uri),
        owner.len() == 32,
    ensures
        match spec_derive(asset_seeds(asset_id), program_id) {
            Some(p) => !m.contains_key(p.0) ==> spec_get_asset(
                spec_initialize_asset(
                    m,
                    program_id,
                    asset_id,
                    asset_type,
                    valuation,
                    metadata_uri,
                    owner,
                ).1,
                program_id,
                asset_id,
            ) == Ok::<AssetModel, LedgerError>(
                spec_new_asset(asset_id, asset_type, valuation, metadata_uri, owner, p.1),
            ),
            None => true,
        },
{
    match spec_derive(asset_seeds(asset_id), program_id) {
        Some(p) => {
            if !m.contains_key(p.0) {
                lemma_asset_round_trip(
                    spec_new_asset(asset_id, asset_type, valuation, metadata_uri, owner, p.1),
                );
            }
        },
        None => {},
    }
}

/// What is written is read back: a loan record that `create_loan` stores at
/// a free address is returned exactly by a following `get_loan`, by the
/// codec round trip.
pub proof fn lemma_create_then_get_loan(
    m: Map<Seq<u8>, Seq<u8>>,
    program_id: Seq<u8>,
    asset_id: Seq<u8>,
    borrower: Seq<u8>,
    loan_amount: u64,
    interest_rate: u64,
    duration: i64,
    now: i64,
)
    requires
        borrower.len() == 32,
    ensures
        match spec_derive(asset_seeds(asset_id), program_id) {
            Some(ap) => match spec_decode_asset(m[ap.0]) {
                Some(a) => match spec_derive(loan_seeds(ap.0, borrower), program_id) {
                    Some(lp) => {
                        (m.contains_key(ap.0) && ap.0.len() == 32 && !m.contains_key(lp.0)
                            && loan_amount <= crate::policy::spec_max_loan(
                            a.valuation,
                            a.risk_score,
                        )) ==> spec_get_loan(
                            spec_create_loan(
                                m,
                                program_id,
                                asset_id,
                                borrower,
                                loan_amount,
                                interest_rate,
                                duration,
                                now,
                            ).1,
                            lp.0,
                        ) == Ok::<LoanModel, LedgerError>(
                            crate::state::spec_new_loan(
                                borrower,
                                ap.0,
                                loan_amount,
                                interest_rate,
                                now,
                                duration,
                                a.risk_score,
                                lp.1,
                            ),
                        )
                    },
                    None => true,
                },
                None => true,
            },
            None => true,
        },
{
    match spec_derive(asset_seeds(asset_id), program_id) {
        Some(ap) => match spec_decode_asset(m[ap.0]) {
            Some(a) => match spec_derive(loan_seeds(ap.0, borrower), program_id) {
                Some(lp) => {
                    if m.contains_key(ap.0) && ap.0.len() == 32 && !m.contains_key(lp.0)
                        && loan_amount <= crate::policy::spec_max_loan(a.valuation, a.risk_score) {
                        lemma_loan_round_trip(
                            crate::state::spec_new_loan(
                                borrower,
                                ap.0,
                                loan_amount,
                                interest_rate,
                                now,
                                duration,
                                a.risk_score,
                                lp.1,
                            ),
                        );
                    }
                },
                None => {},
            },
            None => {},
        },
        None => {},
    }
}

impl Ledger {
    /// Creates an asset record under the address derived from
    /// ("asset", asset_id). Fails with `AlreadyExists` when a record
    /// occupies that address — uniqueness is enforced by address collision —
    /// and with `AddressDerivation` when the nonce space is exhausted.
    /// Returns the derived address.
    pub fn initialize_asset(
        &mut self,
        program_id: &Vec<u8>,
        asset_id: Vec<u8>,
        asset_type: Vec<u8>,
        valuation: u64,
        metadata_uri: Vec<u8>,
        owner: Vec<u8>,
    ) -> (r: Result<Vec<u8>, LedgerError>)
        requires
            program_id@.len() == 32,
            owner@.len() == 32,
            asset_id@.len() < 0x1_0000_0000,
            asset_type@.len() < 0x1_0000_0000,
            metadata_uri@.len() < 0x1_0000_0000,
        ensures
            final(self)@ == spec_initialize_asset(
                old(self)@,
                program_id@,
                asset_id@,
                asset_type@,
                valuation,
                metadata_uri@,
                owner@,
            ).1,
            match r {
                Ok(a) => spec_initialize_asset(
                    old(self)@,
                    program_id@,
                    asset_id@,
                    asset_type@,
                    valuation,
                    metadata_uri@,
                    owner@,
                ).0 == Ok::<Seq<u8>, LedgerError>(a@),
                Err(e) => spec_initialize_asset(
                    old(self)@,
                    program_id@,
                    asset_id@,
                    asset_type@,
                    valuation,
                    metadata_uri@,
                    owner@,
                ).0 == Err::<Seq<u8>, LedgerError>(e),
            },
    {
        let seeds = asset_seed_list(&asset_id);
        let p = match crate::address::derive(&seeds, program_id) {
            Ok(p) => p,
            Err(e) => {
                return Err(LedgerError::AddressDerivation(e));
            },
        };
        let addr = p.0;
        if self.contains(&addr) {
            return Err(LedgerError::State(StateError::AlreadyExists));
        }
        let record = crate::state::initialize_asset(
            asset_id,
            asset_type,
            valuation,
            metadata_uri,
            owner,
            p.1,
        );
        let blob = record.to_bytes();
        let out = vstd::slice::slice_to_vec(addr.as_slice());
        self.set(addr, blob);
        Ok(out)
    }

    /// Overwrites the risk score of the asset named by `asset_id`; no other
    /// field changes. Fails with `OutOfRange` above 100, `Inactive` on an
    /// inactive asset, `NotFound` or `Codec` when the record cannot be
    /// resolved, leaving the store untouched in every failing case.
    pub fn update_risk_score(
        &mut self,
        program_id: &Vec<u8>,
        asset_id: &Vec<u8>,
        new_risk_score: u8,
    ) -> (r: Result<(), LedgerError>)
        requires
            program_id@.len() == 32,
        ensures
            final(self)@ == spec_update_risk_score(
                old(self)@,
                program_id@,
                asset_id@,
                new_risk_score,
            ).1,
            match r {
                Ok(_) => spec_update_risk_score(
                    old(self)@,
                    program_id@,
                    asset_id@,
                    new_risk_score,
                ).0 == Ok::<(), LedgerError>(()),
                Err(e) => spec_update_risk_score(
                    old(self)@,
                    program_id@,
                    asset_id@,
                    new_risk_score,
                ).0 == Err::<(), LedgerError>(e),
            },
    {
        let seeds = asset_seed_list(asset_id);
        let p = match crate::address::derive(&seeds, program_id) {
            Ok(p) => p,
            Err(e) => {
                return Err(LedgerError::AddressDerivation(e));
            },
        };
        let addr = p.0;
        let mut record = match self.get(&addr) {
            Some(blob) => match AssetAccount::from_bytes(blob.as_slice()) {
                Ok(a) => a,
                Err(e) => {
                    return Err(LedgerError::Codec(e));
                },
            },
            None => {
                return Err(LedgerError::NotFound);
            },
        };
        match crate::state::update_risk_score(&mut record, new_risk_score) {
            Ok(_) => {},
            Err(e) => {
                return Err(e);
            },
        }
        let blob = record.to_bytes();
        self.set(addr, blob);
        Ok(())
    }

    /// Issues a loan against the asset named by `asset_id`, under the
    /// address derived from ("loan", asset_address, borrower). A second
    /// issuance for the same pair fails with `AlreadyExists` as a naming
    /// collision; an amount above the ceiling fails with `LoanTooHigh`.
    /// Returns the derived loan address.
    pub fn create_loan(
        &mut self,
        program_id: &Vec<u8>,
        asset_id: &Vec<u8>,
        borrower: Vec<u8>,
        loan_amount: u64,
        interest_rate: u64,
        duration: i64,
        now: i64,
    ) -> (r: Result<Vec<u8>, LedgerError>)
        requires
            program_id@.len() == 32,
            borrower@.len() == 32,
            i64::MIN <= now + duration <= i64::MAX,
        ensures
            final(self)@ == spec_create_loan(
                old(self)@,
                program_id@,
                asset_id@,
                borrower@,
                loan_amount,
                interest_rate,
                duration,
                now,
            ).1,
            match r {
                Ok(a) => spec_create_loan(
                    old(self)@,
                    program_id@,
                    asset_id@,
                    borrower@,
                    loan_amount,
                    interest_rate,
                    duration,
                    now,
                ).0 == Ok::<Seq<u8>, LedgerError>(a@),
                Err(e) => spec_create_loan(
                    old(self)@,
                    program_id@,
                    asset_id@,
                    borrower@,
                    loan_amount,
                    interest_rate,
                    duration,
                    now,
                ).0 == Err::<Seq<u8>, LedgerError>(e),
            },
    {
        let seeds = asset_seed_list(asset_id);
        let ap = match crate::address::derive(&seeds, program_id) {
            Ok(p) => p,
            Err(e) => {
                return Err(LedgerError::AddressDerivation(e));
            },
        };
        let asset_addr = ap.0;
        let asset_record = match self.get(&asset_addr) {
            Some(blob) => match AssetAccount::from_bytes(blob.as_slice()) {
                Ok(a) => a,
                Err(e) => {
                    return Err(LedgerError::Codec(e));
                },
            },
            None => {
                return Err(LedgerError::NotFound);
            },
        };
        let loan_seeds_list = loan_seed_list(&asset_addr, &borrower);
        let lp = match crate::address::derive(&loan_seeds_list, program_id) {
            Ok(p) => p,
            Err(e) => {
                return Err(LedgerError::AddressDerivation(e));
            },
        };
        let loan_addr = lp.0;
        if self.contains(&loan_addr) {
            return Err(LedgerError::State(StateError::AlreadyExists));
        }
        let loan_record = match crate::state::create_loan(
            &asset_record,
            &asset_addr,
            borrower,
            loan_amount,
            interest_rate,
            duration,
            now,
            lp.1,
        ) {
            Ok(l) => l,
            Err(e) => {
                return Err(e);
            },
        };
        let blob = loan_record.to_bytes();
        let out = vstd::slice::slice_to_vec(loan_addr.as_slice());
        self.set(loan_addr, blob);
        Ok(out)
    }

    /// Repays the active loan stored at `loan_address`: the record becomes
    /// inactive and repaid. A repeated call fails with `Inactive`.
    pub fn repay_loan(&mut self, loan_address: &Vec<u8>) -> (r: Result<(), LedgerError>)
        ensures
            final(self)@ == spec_repay_loan(old(self)@, loan_address@).1,
            match r {
                Ok(_) => spec_repay_loan(old(self)@, loan_address@).0 == Ok::<(), LedgerError>(()),
                Err(e) => spec_repay_loan(old(self)@, loan_address@).0 == Err::<(), LedgerError>(e),
            },
    {
        let mut record = match self.get(loan_address) {
            Some(blob) => match LoanAccount::from_bytes(blob.as_slice()) {
                Ok(l) => l,
                Err(e) => {
                    return Err(LedgerError::Codec(e));
                },
            },
            None => {
                return Err(LedgerError::NotFound);
            },
        };
        match crate::state::repay_loan(&mut record) {
            Ok(_) => {},
            Err(e) => {
                return Err(e);
            },
        }
        let blob = record.to_bytes();
        let addr = vstd::slice::slice_to_vec(loan_address.as_slice());
        self.set(addr, blob);
        Ok(())
    }

    /// Liquidates the active loan stored at `loan_address` when the
    /// collateral asset's current risk score is strictly above 80: the
    /// record becomes inactive and liquidated. Fails with `NotEligible` at
    /// 80 or below and with `Inactive` on a non-active loan.
    pub fn liquidate_loan(&mut self, loan_address: &Vec<u8>) -> (r: Result<(), LedgerError>)
        ensures
            final(self)@ == spec_liquidate_loan(old(self)@, loan_address@).1,
            match r {
                Ok(_) => spec_liquidate_loan(old(self)@, loan_address@).0 == Ok::<
                    (),
                    LedgerError,
                >(()),
                Err(e) => spec_liquidate_loan(old(self)@, loan_address@).0 == Err::<
                    (),
                    LedgerError,
                >(e),
            },
    {
        let mut record = match self.get(loan_address) {
            Some(blob) => match LoanAccount::from_bytes(blob.as_slice()) {
                Ok(l) => l,
                Err(e) => {
                    return Err(LedgerError::Codec(e));
                },
            },
            None => {
                return Err(LedgerError::NotFound);
            },
        };
        let asset_record = match self.get(&record.asset) {
            Some(blob) => match AssetAccount::from_bytes(blob.as_slice()) {
                Ok(a) => a,
                Err(e) => {
                    return Err(LedgerError::Codec(e));
                },
            },
            None => {
                return Err(LedgerError::NotFound);
            },
        };
        match crate::state::liquidate_loan(&mut record, &asset_record) {
            Ok(_) => {},
            Err(e) => {
                return Err(e);
            },
        }
        let blob = record.to_bytes();
        let addr = vstd::slice::slice_to_vec(loan_address.as_slice());
        self.set(addr, blob);
        Ok(())
    }

    /// Reads and decodes the asset named by `asset_id`, surfacing `NotFound`
    /// and `Codec` as distinct failures.
    pub fn get_asset(&self, program_id: &Vec<u8>, asset_id: &Vec<u8>) -> (r: Result<
        AssetAccount,
        LedgerError,
    >)
        requires
            program_id@.len() == 32,
        ensures
            match r {
                Ok(a) => spec_get_asset(self@, program_id@, asset_id@) == Ok::<
                    AssetModel,
                    LedgerError,
                >(a@),
                Err(e) => spec_get_asset(self@, program_id@, asset_id@) == Err::<
                    AssetModel,
                    LedgerError,
                >(e),
            },
    {
        let seeds = asset_seed_list(asset_id);
        let p = match crate::address::derive(&seeds, program_id) {
            Ok(p) => p,
            Err(e) => {
                return Err(LedgerError::AddressDerivation(e));
            },
        };
        match self.get(&p.0) {
            Some(blob) => match AssetAccount::from_bytes(blob.as_slice()) {
                Ok(a) => Ok(a),
                Err(e) => Err(LedgerError::Codec(e)),
            },
            None => Err(LedgerError::NotFound),
        }
    }

    /// Reads and decodes the loan stored at `loan_address`, surfacing
    /// `NotFound` and `Codec` as distinct failures.
    pub fn get_loan(&self, loan_address: &Vec<u8>) -> (r: Result<LoanAccount, LedgerError>)
        ensures
            match r {
                Ok(l) => spec_get_loan(self@, loan_address@) == Ok::<LoanModel, LedgerError>(l@),
                Err(e) => spec_get_loan(self@, loan_address@) == Err::<LoanModel, LedgerError>(e),
            },
    {
        match self.get(loan_address) {
            Some(blob) => match LoanAccount::from_bytes(blob.as_slice()) {
                Ok(l) => Ok(l),
                Err(e) => Err(LedgerError::Codec(e)),
            },
            None => Err(LedgerError::NotFound),
        }
    }
}

} // verus!
