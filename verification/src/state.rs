//! The asset/loan state machine: per-record transitions.
//!
//! Each operation either applies its whole transition or leaves the record
//! untouched and reports an error. A loan moves through
//! `Active -> {Repaid | Liquidated}`; both terminal states are permanent and
//! mutually exclusive. These functions never authenticate identities — the
//! execution environment does that before an operation runs — they only
//! check lifecycle state and business rules.

use vstd::prelude::*;
use crate::codec::{AssetAccount, AssetModel, LoanAccount, LoanModel};
use crate::error::{LedgerError, StateError, ValidationError};
use crate::policy::{max_loan, spec_max_loan, lemma_max_loan_fits};

verus! {

/// Default risk score of a freshly created asset.
pub open spec fn default_risk_score() -> u8 {
    50
}

/// The record created for a new asset: active, at the default risk score.
pub open spec fn spec_new_asset(
    asset_id: Seq<u8>,
    asset_type: Seq<u8>,
    valuation: u64,
    metadata_uri: Seq<u8>,
    owner: Seq<u8>,
    bump: u8,
) -> AssetModel {
    AssetModel {
        asset_id,
        asset_type,
        valuation,
        metadata_uri,
        owner,
        is_active: true,
        risk_score: default_risk_score(),
        bump,
    }
}

/// The record created for a new loan: active, with the issuance time and the
/// asset's risk score snapshotted.
pub open spec fn spec_new_loan(
    borrower: Seq<u8>,
    asset_address: Seq<u8>,
    principal: u64,
    interest_rate: u64,
    now: i64,
    duration: i64,
    risk_score_at_creation: u8,
    bump: u8,
) -> LoanModel {
    LoanModel {
        borrower,
        asset: asset_address,
        principal,
        interest_rate,
        start_time: now,
        end_time: (now + duration) as i64,
        is_active: true,
        repaid: false,
        liquidated: false,
        risk_score_at_creation,
        bump,
    }
}

/// Effect of a risk-score update: rejected when the new score is out of
/// range or the asset is inactive; otherwise only the risk score changes.
pub open spec fn spec_update_risk(a: AssetModel, new_risk_score: u8) -> Result<
    AssetModel,
    LedgerError,
> {
    if new_risk_score > 100 {
        Err(LedgerError::Validation(ValidationError::OutOfRange))
    } else if !a.is_active {
        Err(LedgerError::State(StateError::Inactive))
    } else {
        Ok(AssetModel { risk_score: new_risk_score, ..a })
    }
}

/// Effect of loan issuance against an asset: rejected exactly when the
/// amount exceeds the loan-to-value ceiling at the asset's current risk
/// score; the boundary amount itself is accepted.
pub open spec fn spec_create_loan_record(
    a: AssetModel,
    asset_address: Seq<u8>,
    borrower: Seq<u8>,
    loan_amount: u64,
    interest_rate: u64,
    duration: i64,
    now: i64,
    bump: u8,
) -> Result<LoanModel, LedgerError> {
    if loan_amount > spec_max_loan(a.valuation, a.risk_score) {
        Err(LedgerError::Validation(ValidationError::LoanTooHigh))
    } else {
        Ok(
            spec_new_loan(
                borrower,
                asset_address,
                loan_amount,
                interest_rate,
                now,
                duration,
                a.risk_score,
                bump,
            ),
        )
    }
}

/// Effect of repayment: only an active loan can be repaid, once.
pub open spec fn spec_repay(l: LoanModel) -> Result<LoanModel, LedgerError> {
    if !l.is_active {
        Err(LedgerError::State(StateError::Inactive))
    } else {
        Ok(LoanModel { is_active: false, repaid: true, ..l })
    }
}

/// Effect of liquidation: only an active loan whose collateral's current
/// risk score is strictly above 80 can be liquidated.
pub open spec fn spec_liquidate(l: LoanModel, a: AssetModel) -> Result<LoanModel, LedgerError> {
    if !l.is_active {
        Err(LedgerError::State(StateError::Inactive))
    } else if a.risk_score <= 80 {
        Err(LedgerError::Validation(ValidationError::NotEligible))
    } else {
        Ok(LoanModel { is_active: false, liquidated: true, ..l })
    }
}

/// Builds the record of a newly initialized asset: active, default risk
/// score, retaining the derivation bump for later address reconstruction.
pub fn initialize_asset(
    asset_id: Vec<u8>,
    asset_type: Vec<u8>,
    valuation: u64,
    metadata_uri: Vec<u8>,
    owner: Vec<u8>,
    bump: u8,
) -> (r: AssetAccount)
    ensures
        r@ == spec_new_asset(asset_id@, asset_type@, valuation, metadata_uri@, owner@, bump),
{
    AssetAccount {
        asset_id,
        asset_type,
        valuation,
        metadata_uri,
        owner,
        is_active: true,
        risk_score: 50,
        bump,
    }
}

/// Overwrites the asset's risk score in place; no other field changes.
/// Fails with `OutOfRange` when the score exceeds 100 and with `Inactive`
/// when the asset is not active, leaving the record untouched either way.
pub fn update_risk_score(asset: &mut AssetAccount, new_risk_score: u8) -> (r: Result<
    (),
    LedgerError,
>)
    ensures
        match r {
            Ok(_) => spec_update_risk(old(asset)@, new_risk_score) == Ok::<AssetModel, LedgerError>(
                final(asset)@,
            ),
            Err(e) => spec_update_risk(old(asset)@, new_risk_score) == Err::<
                AssetModel,
                LedgerError,
            >(e) && final(asset)@ == old(asset)@,
        },
{
    if new_risk_score > 100 {
        return Err(LedgerError::Validation(ValidationError::OutOfRange));
    }
    if !asset.is_active {
        return Err(LedgerError::State(StateError::Inactive));
    }
    asset.risk_score = new_risk_score;
    Ok(())
}

/// Issues a loan against an asset, at the asset's current risk score.
/// Fails with `LoanTooHigh` exactly when the amount exceeds the ceiling;
/// the boundary amount succeeds. The caller supplies the trusted current
/// time and the derivation bump of the loan's address.
pub fn create_loan(
    asset: &AssetAccount,
    asset_address: &Vec<u8>,
    borrower: Vec<u8>,
    loan_amount: u64,
    interest_rate: u64,
    duration: i64,
    now: i64,
    bump: u8,
) -> (r: Result<LoanAccount, LedgerError>)
    requires
        i64::MIN <= now + duration <= i64::MAX,
    ensures
        match r {
            Ok(l) => spec_create_loan_record(
                asset@,
                asset_address@,
                borrower@,
                loan_amount,
                interest_rate,
                duration,
                now,
                bump,
            ) == Ok::<LoanModel, LedgerError>(l@),
            Err(e) => spec_create_loan_record(
                asset@,
                asset_address@,
                borrower@,
                loan_amount,
                interest_rate,
                duration,
                now,
                bump,
            ) == Err::<LoanModel, LedgerError>(e),
        },
{
    let cap = max_loan(asset.valuation, asset.risk_score);
    if loan_amount > cap {
        return Err(LedgerError::Validation(ValidationError::LoanTooHigh));
    }
    Ok(
        LoanAccount {
            borrower,
            asset: vstd::slice::slice_to_vec(asset_address.as_slice()),
            principal: loan_amount,
            interest_rate,
            start_time: now,
            end_time: now + duration,
            is_active: true,
            repaid: false,
            liquidated: false,
            risk_score_at_creation: asset.risk_score,
            bump,
        },
    )
}

/// Repays an active loan: the loan becomes inactive and repaid. A second
/// call on the same record fails with `Inactive`, never succeeds silently.
pub fn repay_loan(loan: &mut LoanAccount) -> (r: Result<(), LedgerError>)
    ensures
        match r {
            Ok(_) => spec_repay(old(loan)@) == Ok::<LoanModel, LedgerError>(final(loan)@),
            Err(e) => spec_repay(old(loan)@) == Err::<LoanModel, LedgerError>(e) && final(loan)@
                == old(loan)@,
        },
{
    if !loan.is_active {
        return Err(LedgerError::State(StateError::Inactive));
    }
    loan.is_active = false;
    loan.repaid = true;
    Ok(())
}

/// Liquidates an active loan whose collateral's current risk score is
/// strictly above 80: the loan becomes inactive and liquidated. Fails with
/// `Inactive` on a non-active loan and with `NotEligible` at a risk score
/// of 80 or below, leaving the record untouched either way.
pub fn liquidate_loan(loan: &mut LoanAccount, asset: &AssetAccount) -> (r: Result<(), LedgerError>)
    ensures
        match r {
            Ok(_) => spec_liquidate(old(loan)@, asset@) == Ok::<LoanModel, LedgerError>(
                final(loan)@,
            ),
            Err(e) => spec_liquidate(old(loan)@, asset@) == Err::<LoanModel, LedgerError>(e)
                && final(loan)@ == old(loan)@,
        },
{
    if !loan.is_active {
        return Err(LedgerError::State(StateError::Inactive));
    }
    if asset.risk_score <= 80 {
        return Err(LedgerError::Validation(ValidationError::NotEligible));
    }
    loan.is_active = false;
    loan.liquidated = true;
    Ok(())
}

/// A fresh asset record is active and starts at the default risk score.
pub proof fn lemma_new_asset_defaults(
    asset_id: Seq<u8>,
    asset_type: Seq<u8>,
    valuation: u64,
    metadata_uri: Seq<u8>,
    owner: Seq<u8>,
    bump: u8,
)
    ensures
        spec_new_asset(asset_id, asset_type, valuation, metadata_uri, owner, bump).risk_score == 50,
        spec_new_asset(asset_id, asset_type, valuation, metadata_uri, owner, bump).is_active,
{
}

/// A stored risk score never leaves 0..=100: records start at the default
/// and an accepted update is within range.
pub proof fn lemma_risk_score_in_range(a: AssetModel, new_risk_score: u8, a2: AssetModel)
    requires
        spec_update_risk(a, new_risk_score) == Ok::<AssetModel, LedgerError>(a2),
    ensures
        a2.risk_score <= 100,
{
}

/// Liquidation gating: liquidation succeeds exactly when the loan is active
/// and the collateral's current risk score is strictly greater than 80; at
/// a risk score of exactly 80 it fails.
pub proof fn lemma_liquidation_gating(l: LoanModel, a: AssetModel)
    ensures
        spec_liquidate(l, a) is Ok <==> (l.is_active && a.risk_score > 80),
        l.is_active && a.risk_score == 80 ==> spec_liquidate(l, a) == Err::<LoanModel, LedgerError>(
            LedgerError::Validation(ValidationError::NotEligible),
        ),
{
}

/// Boundary acceptance: a loan of exactly the loan-to-value ceiling is
/// accepted, and one unit beyond it is rejected with `LoanTooHigh`.
pub proof fn lemma_loan_boundary(
    a: AssetModel,
    asset_address: Seq<u8>,
    borrower: Seq<u8>,
    interest_rate: u64,
    duration: i64,
    now: i64,
    bump: u8,
    cap: u64,
)
    requires
        cap == spec_max_loan(a.valuation, a.risk_score),
    ensures
        spec_create_loan_record(
            a,
            asset_address,
            borrower,
            cap,
            interest_rate,
            duration,
            now,
            bump,
        ) is Ok,
        cap < u64::MAX ==> spec_create_loan_record(
            a,
            asset_address,
            borrower,
            (cap + 1) as u64,
            interest_rate,
            duration,
            now,
            bump,
        ) == Err::<LoanModel, LedgerError>(
            LedgerError::Validation(ValidationError::LoanTooHigh),
        ),
{
    lemma_max_loan_fits(a.valuation, a.risk_score);
}

/// Lifecycle invariant of a loan record: an active loan has reached no
/// terminal state, and the two terminal states exclude each other.
pub open spec fn loan_flags_ok(l: LoanModel) -> bool {
    (l.is_active ==> !l.repaid && !l.liquidated) && !(l.repaid && l.liquidated)
}

/// Terminal immutability: a loan that a successful repayment or liquidation
/// produced is inactive, so repaying or liquidating it again always fails
/// with `StateError::Inactive`, whatever the collateral looks like by then.
/// Exactly one terminal flag is set, permanently.
pub proof fn lemma_terminal_immutability(l: LoanModel, a: AssetModel, l2: LoanModel)
    requires
        loan_flags_ok(l),
        spec_repay(l) == Ok::<LoanModel, LedgerError>(l2) || spec_liquidate(l, a) == Ok::<
            LoanModel,
            LedgerError,
        >(l2),
    ensures
        spec_repay(l2) == Err::<LoanModel, LedgerError>(LedgerError::State(StateError::Inactive)),
        forall|a2: AssetModel|
            spec_liquidate(l2, a2) == Err::<LoanModel, LedgerError>(
                LedgerError::State(StateError::Inactive),
            ),
        !l2.is_active,
        l2.repaid ==> !l2.liquidated,
        l2.liquidated ==> !l2.repaid,
{
}

} // verus!
