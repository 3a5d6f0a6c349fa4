use eth_canon::block::{ExtBlock, Header};
use eth_canon::err::{ConversionError, FieldName};
use eth_canon::fixed::{ExtBloom, ExtH160, ExtH256, ExtH64};
use eth_canon::uint::{ExtU256, U256};

fn complete_block() -> ExtBlock {
    ExtBlock {
        parent_hash: ExtH256 { bytes: [0x01; 32] },
        uncles_hash: ExtH256 { bytes: [0x02; 32] },
        author: Some(ExtH160 { bytes: [0x03; 20] }),
        state_root: ExtH256 { bytes: [0x04; 32] },
        transactions_root: ExtH256 { bytes: [0x05; 32] },
        receipts_root: ExtH256 { bytes: [0x06; 32] },
        logs_bloom: Some(ExtBloom { bytes: [0x07; 256] }),
        difficulty: ExtU256::from_u64(0),
        number: Some(17_000_000),
        gas_limit: ExtU256::from_u64(30_000_000),
        gas_used: ExtU256::from_u64(12_345_678),
        timestamp: ExtU256::from_u64(1_700_000_000),
        extra_data: vec![0x65, 0x74, 0x68],
        mix_hash: Some(ExtH256 { bytes: [0x08; 32] }),
        nonce: Some(ExtH64 { bytes: [0u8; 8] }),
        base_fee_per_gas: Some(ExtU256::from_u64(15_000_000_000)),
        withdrawals_root: Some(ExtH256 { bytes: [0x09; 32] }),
    }
}

#[test]
fn complete_block_converts_exactly() {
    let h = Header::try_from_ext(&complete_block()).expect("complete block must convert");
    assert_eq!(h.parent_hash.bytes, [0x01; 32]);
    assert_eq!(h.ommers_hash.bytes, [0x02; 32]);
    assert_eq!(h.beneficiary.bytes, [0x03; 20]);
    assert_eq!(h.state_root.bytes, [0x04; 32]);
    assert_eq!(h.transactions_root.bytes, [0x05; 32]);
    assert_eq!(h.receipts_root.bytes, [0x06; 32]);
    assert_eq!(h.logs_bloom.bytes.as_slice(), [0x07; 256].as_slice());
    assert_eq!(h.difficulty, U256::from_u64(0));
    assert_eq!(h.number, 17_000_000);
    assert_eq!(h.gas_limit, U256::from_u64(30_000_000));
    assert_eq!(h.gas_used, U256::from_u64(12_345_678));
    assert_eq!(h.timestamp, U256::from_u64(1_700_000_000));
    assert_eq!(h.extra_data, vec![0x65, 0x74, 0x68]);
    assert_eq!(h.mix_hash.bytes, [0x08; 32]);
    assert_eq!(h.nonce.bytes, [0u8; 8]);
    assert_eq!(h.base_fee_per_gas, U256::from_u64(15_000_000_000));
    assert_eq!(h.withdrawals_root.map(|w| w.bytes), Some([0x09; 32]));
}

#[test]
fn missing_base_fee_fails_with_that_field() {
    let mut b = complete_block();
    b.base_fee_per_gas = None;
    let err = Header::try_from_ext(&b).unwrap_err();
    assert_eq!(err, ConversionError::MissingField(FieldName::BaseFeePerGas));
    match err {
        ConversionError::MissingField(f) => assert_eq!(f.as_str(), "base_fee_per_gas"),
        other => panic!("expected a missing field, got {other:?}"),
    }
}

#[test]
fn absent_withdrawals_root_is_not_an_error() {
    let mut b = complete_block();
    b.withdrawals_root = None;
    let h = Header::try_from_ext(&b).expect("withdrawals root is optional");
    assert_eq!(h.withdrawals_root, None);
}

#[test]
fn missing_author_fails() {
    let mut b = complete_block();
    b.author = None;
    assert_eq!(
        Header::try_from_ext(&b),
        Err(ConversionError::MissingField(FieldName::Author))
    );
}

#[test]
fn missing_logs_bloom_fails() {
    let mut b = complete_block();
    b.logs_bloom = None;
    assert_eq!(
        Header::try_from_ext(&b),
        Err(ConversionError::MissingField(FieldName::LogsBloom))
    );
}

#[test]
fn missing_number_fails() {
    let mut b = complete_block();
    b.number = None;
    assert_eq!(
        Header::try_from_ext(&b),
        Err(ConversionError::MissingField(FieldName::Number))
    );
}

#[test]
fn missing_mix_hash_fails() {
    let mut b = complete_block();
    b.mix_hash = None;
    assert_eq!(
        Header::try_from_ext(&b),
        Err(ConversionError::MissingField(FieldName::MixHash))
    );
}

#[test]
fn missing_seal_nonce_fails() {
    let mut b = complete_block();
    b.nonce = None;
    assert_eq!(
        Header::try_from_ext(&b),
        Err(ConversionError::MissingField(FieldName::Nonce))
    );
}

#[test]
fn first_missing_field_wins() {
    let mut b = complete_block();
    b.author = None;
    b.base_fee_per_gas = None;
    assert_eq!(
        Header::try_from_ext(&b),
        Err(ConversionError::MissingField(FieldName::Author))
    );
}
