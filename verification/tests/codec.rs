use crowdfund::error::CrowdError;
use crowdfund::instruction::CrowdFundingInstruction;
use crowdfund::state::{CampaignAccount, FEE, RECORD_LEN};

fn sample_record() -> CampaignAccount {
    CampaignAccount {
        enabled: 0,
        nonce: 99,
        goal_amount: 1_000_000,
        creator: vec![7u8; 32],
        fee_vault: vec![9u8; 32],
    }
}

#[test]
fn record_round_trip() {
    let rec = sample_record();
    let bytes = rec.serialize();
    assert_eq!(bytes.len(), RECORD_LEN);
    let back = CampaignAccount::deserialize(&bytes).unwrap();
    assert_eq!(back.enabled, rec.enabled);
    assert_eq!(back.nonce, rec.nonce);
    assert_eq!(back.goal_amount, rec.goal_amount);
    assert_eq!(back.creator, rec.creator);
    assert_eq!(back.fee_vault, rec.fee_vault);
}

#[test]
fn record_layout_matches_field_order_encoding() {
    let rec = sample_record();
    let bytes = rec.serialize();
    // The same fields serialized by borsh, which fixes this layout.
    let mut expect: Vec<u8> = Vec::new();
    expect.extend(borsh::to_vec(&rec.enabled).unwrap());
    expect.extend(borsh::to_vec(&rec.nonce).unwrap());
    expect.extend(borsh::to_vec(&rec.goal_amount).unwrap());
    expect.extend(&rec.creator);
    expect.extend(&rec.fee_vault);
    assert_eq!(bytes, expect);
}

#[test]
fn record_decode_tolerates_trailing_bytes() {
    let rec = sample_record();
    let mut bytes = rec.serialize();
    bytes.extend([0xEEu8; 10]);
    let back = CampaignAccount::deserialize(&bytes).unwrap();
    assert_eq!(back.nonce, 99);
    assert_eq!(back.goal_amount, 1_000_000);
}

#[test]
fn record_decode_rejects_truncation() {
    let rec = sample_record();
    let bytes = rec.serialize();
    for cut in [0usize, 1, 10, RECORD_LEN - 1] {
        let err = CampaignAccount::deserialize(&bytes[..cut]).unwrap_err();
        assert_eq!(err, CrowdError::DecodeError);
    }
}

#[test]
fn request_round_trip() {
    let ix = CrowdFundingInstruction::EnableCampaign { amount: FEE };
    let bytes = ix.encode();
    assert_eq!(CrowdFundingInstruction::decode(&bytes).unwrap(), ix);
}

#[test]
fn request_encoding_matches_borsh() {
    let amount = 123_456_789_000u64;
    let ix = CrowdFundingInstruction::EnableCampaign { amount };
    let mut expect = vec![0u8];
    expect.extend(borsh::to_vec(&amount).unwrap());
    assert_eq!(ix.encode(), expect);
}

#[test]
fn request_decode_rejects_unknown_tag() {
    let mut bytes = CrowdFundingInstruction::EnableCampaign { amount: FEE }.encode();
    bytes[0] = 1;
    let err = CrowdFundingInstruction::decode(&bytes).unwrap_err();
    assert_eq!(err, CrowdError::DecodeError);
}

#[test]
fn request_decode_rejects_wrong_length() {
    let bytes = CrowdFundingInstruction::EnableCampaign { amount: FEE }.encode();
    assert_eq!(
        CrowdFundingInstruction::decode(&bytes[..8]).unwrap_err(),
        CrowdError::DecodeError
    );
    let mut long = bytes.clone();
    long.push(0);
    assert_eq!(
        CrowdFundingInstruction::decode(&long).unwrap_err(),
        CrowdError::DecodeError
    );
    assert_eq!(
        CrowdFundingInstruction::decode(&[]).unwrap_err(),
        CrowdError::DecodeError
    );
}

#[test]
fn transfer_request_bytes_match_settlement_engine_encoding() {
    let amount = FEE;
    let data = crowdfund::settlement::transfer_request_data(amount);
    let expect = spl_token::instruction::TokenInstruction::Transfer { amount }.pack();
    assert_eq!(data, expect);
    let mut manual = vec![3u8];
    manual.extend(amount.to_le_bytes());
    assert_eq!(data, manual);
}

#[test]
fn error_codes_are_stable() {
    assert_eq!(CrowdError::InvalidFeeAccount.code(), 0);
    assert_eq!(CrowdError::InvalidAuthority.code(), 1);
    assert_eq!(CrowdError::InvalidSignature.code(), 2);
    assert_eq!(CrowdError::AlreadyEnabled.code(), 3);
    assert_eq!(CrowdError::CreatorMismatch.code(), 4);
    assert_eq!(CrowdError::InvalidAmount.code(), 5);
    assert_eq!(CrowdError::InvalidSettlementEngine.code(), 6);
    assert_eq!(CrowdError::DecodeError.code(), 7);
    assert_eq!(CrowdError::DelegatedTransferFailed.code(), 8);
}
