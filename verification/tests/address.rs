use rwa_collateral::instruction::{
    create_loan_data, initialize_asset_data, liquidate_loan_data, repay_loan_data,
    update_risk_score_data,
};
use solana_sdk::pubkey::Pubkey;

fn program_id_bytes() -> Vec<u8> {
    vec![7u8; 32]
}

#[test]
fn derive_matches_reference_scheme() {
    let pid = program_id_bytes();
    let seeds = vec![b"asset".to_vec(), b"RWA-1".to_vec()];
    let (addr, bump) = rwa_collateral::address::derive(&seeds, &pid).unwrap();
    let pk = Pubkey::new_from_array([7u8; 32]);
    let (expected, expected_bump) = Pubkey::find_program_address(&[b"asset", b"RWA-1"], &pk);
    assert_eq!(addr, expected.to_bytes().to_vec());
    assert_eq!(bump, expected_bump);
}

#[test]
fn derive_matches_reference_scheme_three_seeds() {
    let pid = program_id_bytes();
    let pk = Pubkey::new_from_array([7u8; 32]);
    let asset = [11u8; 32];
    let borrower = [12u8; 32];
    let seeds = vec![b"loan".to_vec(), asset.to_vec(), borrower.to_vec()];
    let (addr, bump) = rwa_collateral::address::derive(&seeds, &pid).unwrap();
    let (expected, expected_bump) =
        Pubkey::find_program_address(&[b"loan", &asset, &borrower], &pk);
    assert_eq!(addr, expected.to_bytes().to_vec());
    assert_eq!(bump, expected_bump);
}

#[test]
fn derive_is_deterministic() {
    let pid = program_id_bytes();
    let seeds = vec![b"asset".to_vec(), b"determinism".to_vec()];
    let first = rwa_collateral::address::derive(&seeds, &pid).unwrap();
    let second = rwa_collateral::address::derive(&seeds, &pid).unwrap();
    assert_eq!(first, second);
}

#[test]
fn derived_address_verifies_with_its_bump() {
    // The retained bump reconstructs the same address through the
    // validation path of the reference scheme.
    let pid = program_id_bytes();
    let seeds = vec![b"asset".to_vec(), b"RWA-1".to_vec()];
    let (addr, bump) = rwa_collateral::address::derive(&seeds, &pid).unwrap();
    let pk = Pubkey::new_from_array([7u8; 32]);
    let rebuilt = Pubkey::create_program_address(&[b"asset", b"RWA-1", &[bump]], &pk).unwrap();
    assert_eq!(addr, rebuilt.to_bytes().to_vec());
}

#[test]
fn derive_rejects_overlong_seed() {
    // A seed beyond the scheme's length cap fails every nonce, which is
    // reported, not panicked.
    let pid = program_id_bytes();
    let seeds = vec![vec![1u8; 64]];
    assert!(rwa_collateral::address::derive(&seeds, &pid).is_err());
}

#[test]
fn operation_tags_are_hash_prefixes() {
    let cases: Vec<(&str, Vec<u8>)> = vec![
        ("global:initialize_asset", initialize_asset_data(&Vec::new(), &Vec::new(), 0, &Vec::new())[..8].to_vec()),
        ("global:update_risk_score", update_risk_score_data(0)[..8].to_vec()),
        ("global:create_loan", create_loan_data(0, 0, 0)[..8].to_vec()),
        ("global:repay_loan", repay_loan_data()),
        ("global:liquidate_loan", liquidate_loan_data()),
    ];
    for (name, tag) in cases {
        let h = solana_sdk::hash::hash(name.as_bytes());
        assert_eq!(&h.to_bytes()[..8], &tag[..8], "selector of {}", name);
    }
}

#[test]
fn initialize_asset_payload_layout() {
    let data = initialize_asset_data(
        &b"RWA-1".to_vec(),
        &b"real-estate".to_vec(),
        1_000_000,
        &b"ipfs://QmMeta".to_vec(),
    );
    let mut expected: Vec<u8> = vec![214, 153, 49, 248, 95, 248, 208, 179];
    expected.extend_from_slice(&(5u32).to_le_bytes());
    expected.extend_from_slice(b"RWA-1");
    expected.extend_from_slice(&(11u32).to_le_bytes());
    expected.extend_from_slice(b"real-estate");
    expected.extend_from_slice(&1_000_000u64.to_le_bytes());
    expected.extend_from_slice(&(13u32).to_le_bytes());
    expected.extend_from_slice(b"ipfs://QmMeta");
    assert_eq!(data, expected);
}

#[test]
fn update_risk_score_payload_layout() {
    let data = update_risk_score_data(85);
    let mut expected: Vec<u8> = vec![80, 138, 35, 224, 23, 172, 20, 254];
    expected.push(85);
    assert_eq!(data, expected);
}

#[test]
fn create_loan_payload_layout() {
    let data = create_loan_data(500_000, 750, 86_400);
    let mut expected: Vec<u8> = vec![166, 131, 118, 219, 138, 218, 206, 140];
    expected.extend_from_slice(&500_000u64.to_le_bytes());
    expected.extend_from_slice(&750u64.to_le_bytes());
    expected.extend_from_slice(&86_400i64.to_le_bytes());
    assert_eq!(data, expected);
}

#[test]
fn derive_matches_reference_scheme_corpus() {
    for v in 0u8..16 {
        let pid_bytes = vec![v; 32];
        let pk = Pubkey::new_from_array([v; 32]);
        let seed = vec![v; (v % 8 + 1) as usize];
        let seeds = vec![b"asset".to_vec(), seed.clone()];
        let (addr, bump) = rwa_collateral::address::derive(&seeds, &pid_bytes).unwrap();
        let (expected, expected_bump) = Pubkey::find_program_address(&[b"asset", &seed], &pk);
        assert_eq!(addr, expected.to_bytes().to_vec());
        assert_eq!(bump, expected_bump);
    }
}
