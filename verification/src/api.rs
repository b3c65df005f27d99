//! Value types of the client-facing request/response surface.
//!
//! Plain carriers between the transport layer and the ledger operations:
//! identities travel as their textual form and are converted at the
//! boundary; amounts and times are the same base units the records use.

use vstd::prelude::*;

verus! {

/// Request to create an asset record.
#[derive(Debug, PartialEq, Eq)]
pub struct CreateAssetRequest {
    pub asset_id: String,
    pub asset_type: String,
    pub valuation: u64,
    pub metadata_uri: String,
    /// Owner identity, textual form.
    pub owner: String,
}

/// Outcome of a submitted asset creation.
#[derive(Debug, PartialEq, Eq)]
pub struct CreateAssetResponse {
    pub success: bool,
    /// Derived address of the new record, textual form.
    pub asset_pda: String,
    /// Identifier of the accepted submission.
    pub transaction: String,
    pub asset_id: String,
}

/// Request to overwrite an asset's risk score.
#[derive(Debug, PartialEq, Eq)]
pub struct UpdateRiskRequest {
    pub risk_score: u8,
    /// Optional origin of the update, e.g. an oracle workflow.
    pub source: Option<String>,
}

/// Outcome of a submitted risk-score update.
#[derive(Debug, PartialEq, Eq)]
pub struct UpdateRiskResponse {
    pub success: bool,
    pub transaction: String,
    pub asset_id: String,
    pub new_risk_score: u8,
}

/// Request to issue a loan against an asset.
#[derive(Debug, PartialEq, Eq)]
pub struct CreateLoanRequest {
    pub asset_id: String,
    /// Borrower identity, textual form.
    pub borrower: String,
    pub loan_amount: u64,
    /// Basis points.
    pub interest_rate: u64,
    /// Seconds.
    pub duration: i64,
}

/// Outcome of a submitted loan issuance.
#[derive(Debug, PartialEq, Eq)]
pub struct CreateLoanResponse {
    pub success: bool,
    /// Derived address of the new record, textual form.
    pub loan_pda: String,
    pub transaction: String,
    pub asset_id: String,
}

/// Address and submission identifier of a confirmed asset initialization.
#[derive(Debug, PartialEq, Eq)]
pub struct InitializeAssetResult {
    pub asset_pda: String,
    pub transaction: String,
}

/// Address and submission identifier of a confirmed loan issuance.
#[derive(Debug, PartialEq, Eq)]
pub struct CreateLoanResult {
    pub loan_pda: String,
    pub transaction: String,
}

} // verus!
