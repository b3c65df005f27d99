//! Builders for outbound operation payloads.
//!
//! A call is the 8-byte operation selector followed by the arguments in the
//! same little-endian, length-prefixed encoding that the record codec uses,
//! so the execution side parses it with identical rules. The selectors form
//! a closed registry, one distinct tag per operation.

use vstd::prelude::*;
use vstd::bytes::{spec_u64_to_le_bytes, u64_to_le_bytes};
use crate::codec::{encode_str, len_ok, push_bytes, spec_encode_str};

verus! {

/// Selector of the asset-initialization operation.
pub open spec fn initialize_asset_op_tag() -> Seq<u8> {
    seq![214u8, 153u8, 49u8, 248u8, 95u8, 248u8, 208u8, 179u8]
}

/// Selector of the risk-score-update operation.
pub open spec fn update_risk_score_op_tag() -> Seq<u8> {
    seq![80u8, 138u8, 35u8, 224u8, 23u8, 172u8, 20u8, 254u8]
}

/// Selector of the loan-issuance operation.
pub open spec fn create_loan_op_tag() -> Seq<u8> {
    seq![166u8, 131u8, 118u8, 219u8, 138u8, 218u8, 206u8, 140u8]
}

/// Selector of the repayment operation.
pub open spec fn repay_loan_op_tag() -> Seq<u8> {
    seq![224u8, 93u8, 144u8, 77u8, 61u8, 17u8, 137u8, 54u8]
}

/// Selector of the liquidation operation.
pub open spec fn liquidate_loan_op_tag() -> Seq<u8> {
    seq![111u8, 249u8, 185u8, 54u8, 161u8, 147u8, 178u8, 24u8]
}

/// Payload of an asset-initialization call.
pub open spec fn spec_initialize_asset_data(
    asset_id: Seq<u8>,
    asset_type: Seq<u8>,
    valuation: u64,
    metadata_uri: Seq<u8>,
) -> Seq<u8> {
    initialize_asset_op_tag() + spec_encode_str(asset_id) + spec_encode_str(asset_type)
        + spec_u64_to_le_bytes(valuation) + spec_encode_str(metadata_uri)
}

/// Payload of a risk-score-update call.
pub open spec fn spec_update_risk_score_data(new_risk_score: u8) -> Seq<u8> {
    update_risk_score_op_tag() + seq![new_risk_score]
}

/// Payload of a loan-issuance call.
pub open spec fn spec_create_loan_data(
    loan_amount: u64,
    interest_rate: u64,
    duration: i64,
) -> Seq<u8> {
    create_loan_op_tag() + spec_u64_to_le_bytes(loan_amount) + spec_u64_to_le_bytes(interest_rate)
        + spec_u64_to_le_bytes(duration as u64)
}

/// Payload of a repayment call: the selector alone.
pub open spec fn spec_repay_loan_data() -> Seq<u8> {
    repay_loan_op_tag()
}

/// Payload of a liquidation call: the selector alone.
pub open spec fn spec_liquidate_loan_data() -> Seq<u8> {
    liquidate_loan_op_tag()
}

fn initialize_asset_op_tag_bytes() -> (r: Vec<u8>)
    ensures
        r@ == initialize_asset_op_tag(),
{
    let mut v: Vec<u8> = Vec::new();
    v.push(214);
    v.push(153);
    v.push(49);
    v.push(248);
    v.push(95);
    v.push(248);
    v.push(208);
    v.push(179);
    proof {
        assert(v@ =~= initialize_asset_op_tag());
    }
    v
}

fn update_risk_score_op_tag_bytes() -> (r: Vec<u8>)
    ensures
        r@ == update_risk_score_op_tag(),
{
    let mut v: Vec<u8> = Vec::new();
    v.push(80);
    v.push(138);
    v.push(35);
    v.push(224);
    v.push(23);
    v.push(172);
    v.push(20);
    v.push(254);
    proof {
        assert(v@ =~= update_risk_score_op_tag());
    }
    v
}

fn create_loan_op_tag_bytes() -> (r: Vec<u8>)
    ensures
        r@ == create_loan_op_tag(),
{
    let mut v: Vec<u8> = Vec::new();
    v.push(166);
    v.push(131);
    v.push(118);
    v.push(219);
    v.push(138);
    v.push(218);
    v.push(206);
    v.push(140);
    proof {
        assert(v@ =~= create_loan_op_tag());
    }
    v
}

fn repay_loan_op_tag_bytes() -> (r: Vec<u8>)
    ensures
        r@ == repay_loan_op_tag(),
{
    let mut v: Vec<u8> = Vec::new();
    v.push(224);
    v.push(93);
    v.push(144);
    v.push(77);
    v.push(61);
    v.push(17);
    v.push(137);
    v.push(54);
    proof {
        assert(v@ =~= repay_loan_op_tag());
    }
    v
}

fn liquidate_loan_op_tag_bytes() -> (r: Vec<u8>)
    ensures
        r@ == liquidate_loan_op_tag(),
{
    let mut v: Vec<u8> = Vec::new();
    v.push(111);
    v.push(249);
    v.push(185);
    v.push(54);
    v.push(161);
    v.push(147);
    v.push(178);
    v.push(24);
    proof {
        assert(v@ =~= liquidate_loan_op_tag());
    }
    v
}

/// Builds the payload of an asset-initialization call.
pub fn initialize_asset_data(
    asset_id: &Vec<u8>,
    asset_type: &Vec<u8>,
    valuation: u64,
    metadata_uri: &Vec<u8>,
) -> (r: Vec<u8>)
    requires
        len_ok(asset_id@),
        len_ok(asset_type@),
        len_ok(metadata_uri@),
    ensures
        r@ == spec_initialize_asset_data(asset_id@, asset_type@, valuation, metadata_uri@),
{
    let mut out = initialize_asset_op_tag_bytes();
    encode_str(&mut out, asset_id);
    encode_str(&mut out, asset_type);
    let val = u64_to_le_bytes(valuation);
    push_bytes(&mut out, val.as_slice());
    encode_str(&mut out, metadata_uri);
    proof {
        assert(out@ =~= spec_initialize_asset_data(
            asset_id@,
            asset_type@,
            valuation,
            metadata_uri@,
        ));
    }
    out
}

/// Builds the payload of a risk-score-update call.
pub fn update_risk_score_data(new_risk_score: u8) -> (r: Vec<u8>)
    ensures
        r@ == spec_update_risk_score_data(new_risk_score),
{
    let mut out = update_risk_score_op_tag_bytes();
    out.push(new_risk_score);
    proof {
        assert(out@ =~= spec_update_risk_score_data(new_risk_score));
    }
    out
}

/// Builds the payload of a loan-issuance call.
pub fn create_loan_data(loan_amount: u64, interest_rate: u64, duration: i64) -> (r: Vec<u8>)
    ensures
        r@ == spec_create_loan_data(loan_amount, interest_rate, duration),
{
    let mut out = create_loan_op_tag_bytes();
    let amount = u64_to_le_bytes(loan_amount);
    push_bytes(&mut out, amount.as_slice());
    let rate = u64_to_le_bytes(interest_rate);
    push_bytes(&mut out, rate.as_slice());
    let dur = u64_to_le_bytes(duration as u64);
    push_bytes(&mut out, dur.as_slice());
    proof {
        assert(out@ =~= spec_create_loan_data(loan_amount, interest_rate, duration));
    }
    out
}

/// Builds the payload of a repayment call.
pub fn repay_loan_data() -> (r: Vec<u8>)
    ensures
        r@ == spec_repay_loan_data(),
{
    repay_loan_op_tag_bytes()
}

/// Builds the payload of a liquidation call.
pub fn liquidate_loan_data() -> (r: Vec<u8>)
    ensures
        r@ == spec_liquidate_loan_data(),
{
    liquidate_loan_op_tag_bytes()
}

} // verus!
