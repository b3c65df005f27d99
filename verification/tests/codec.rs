use rwa_collateral::codec::{asset_tag_bytes, decode_record, loan_tag_bytes, AssetAccount, LoanAccount, Record};
use rwa_collateral::error::CodecError;

fn sample_asset() -> AssetAccount {
    AssetAccount {
        asset_id: b"RWA-1".to_vec(),
        asset_type: b"real-estate".to_vec(),
        valuation: 1_000_000,
        metadata_uri: b"ipfs://QmMeta".to_vec(),
        owner: vec![9u8; 32],
        is_active: true,
        risk_score: 50,
        bump: 254,
    }
}

fn sample_loan() -> LoanAccount {
    LoanAccount {
        borrower: vec![1u8; 32],
        asset: vec![2u8; 32],
        principal: 500_000,
        interest_rate: 750,
        start_time: 1_700_000_000,
        end_time: 1_700_086_400,
        is_active: true,
        repaid: false,
        liquidated: false,
        risk_score_at_creation: 50,
        bump: 253,
    }
}

#[test]
fn asset_round_trip() {
    let a = sample_asset();
    let bytes = a.to_bytes();
    let decoded = AssetAccount::from_bytes(&bytes).unwrap();
    assert_eq!(decoded, a);
}

#[test]
fn asset_round_trip_empty_strings() {
    let mut a = sample_asset();
    a.asset_id = Vec::new();
    a.asset_type = Vec::new();
    a.metadata_uri = Vec::new();
    a.is_active = false;
    a.risk_score = 0;
    let bytes = a.to_bytes();
    let decoded = AssetAccount::from_bytes(&bytes).unwrap();
    assert_eq!(decoded, a);
}

#[test]
fn loan_round_trip() {
    let l = sample_loan();
    let bytes = l.to_bytes();
    let decoded = LoanAccount::from_bytes(&bytes).unwrap();
    assert_eq!(decoded, l);
}

#[test]
fn loan_round_trip_negative_times() {
    let mut l = sample_loan();
    l.start_time = -5;
    l.end_time = i64::MIN;
    l.is_active = false;
    l.liquidated = true;
    let bytes = l.to_bytes();
    let decoded = LoanAccount::from_bytes(&bytes).unwrap();
    assert_eq!(decoded, l);
}

#[test]
fn asset_layout_is_fixed() {
    let a = sample_asset();
    let bytes = a.to_bytes();
    let mut expected: Vec<u8> = Vec::new();
    expected.extend_from_slice(&[234, 180, 241, 252, 139, 224, 160, 8]);
    expected.extend_from_slice(&(5u32).to_le_bytes());
    expected.extend_from_slice(b"RWA-1");
    expected.extend_from_slice(&(11u32).to_le_bytes());
    expected.extend_from_slice(b"real-estate");
    expected.extend_from_slice(&1_000_000u64.to_le_bytes());
    expected.extend_from_slice(&(13u32).to_le_bytes());
    expected.extend_from_slice(b"ipfs://QmMeta");
    expected.extend_from_slice(&[9u8; 32]);
    expected.push(1);
    expected.push(50);
    expected.push(254);
    assert_eq!(bytes, expected);
}

#[test]
fn record_tags_are_hash_prefixes() {
    let asset = solana_sdk::hash::hash(b"account:Asset");
    assert_eq!(&asset.to_bytes()[..8], asset_tag_bytes().as_slice());
    let loan = solana_sdk::hash::hash(b"account:Loan");
    assert_eq!(&loan.to_bytes()[..8], loan_tag_bytes().as_slice());
}

#[test]
fn decode_truncated_mid_length_fails() {
    let a = sample_asset();
    let bytes = a.to_bytes();
    // Cut inside the 4-byte length prefix of the first string field.
    let truncated = &bytes[..10];
    assert_eq!(AssetAccount::from_bytes(truncated), Err(CodecError));
}

#[test]
fn decode_truncated_mid_string_fails() {
    let a = sample_asset();
    let bytes = a.to_bytes();
    // Length prefix declares 5 bytes; keep only 3 of them.
    let truncated = &bytes[..15];
    assert_eq!(AssetAccount::from_bytes(truncated), Err(CodecError));
}

#[test]
fn decode_short_buffer_fails() {
    assert_eq!(AssetAccount::from_bytes(&[]), Err(CodecError));
    assert_eq!(LoanAccount::from_bytes(&[20, 195, 70]), Err(CodecError));
    let l = sample_loan();
    let bytes = l.to_bytes();
    assert_eq!(LoanAccount::from_bytes(&bytes[..bytes.len() - 1]), Err(CodecError));
}

#[test]
fn decode_invalid_utf8_fails() {
    let a = sample_asset();
    let mut bytes = a.to_bytes();
    // First byte of the asset_id string, right after tag and length prefix.
    bytes[12] = 0xFF;
    assert_eq!(AssetAccount::from_bytes(&bytes), Err(CodecError));
}

#[test]
fn decode_wrong_tag_fails() {
    let a = sample_asset();
    let mut bytes = a.to_bytes();
    bytes[0] ^= 1;
    assert_eq!(AssetAccount::from_bytes(&bytes), Err(CodecError));
    assert_eq!(decode_record(&bytes), Err(CodecError));
    // An asset blob is not a loan record.
    let good = a.to_bytes();
    assert_eq!(LoanAccount::from_bytes(&good), Err(CodecError));
}

#[test]
fn decode_ignores_trailing_bytes() {
    // Storage over-allocates records; trailing zeros do not change meaning.
    let a = sample_asset();
    let mut bytes = a.to_bytes();
    bytes.extend_from_slice(&[0u8; 64]);
    let decoded = AssetAccount::from_bytes(&bytes).unwrap();
    assert_eq!(decoded, a);
}

#[test]
fn decode_record_dispatches_on_tag() {
    let a = sample_asset();
    let l = sample_loan();
    match decode_record(&a.to_bytes()) {
        Ok(Record::Asset(decoded)) => assert_eq!(decoded, a),
        other => panic!("expected an asset record, got {:?}", other),
    }
    match decode_record(&l.to_bytes()) {
        Ok(Record::Loan(decoded)) => assert_eq!(decoded, l),
        other => panic!("expected a loan record, got {:?}", other),
    }
    assert_eq!(decode_record(&[0u8; 40]), Err(CodecError));
}
