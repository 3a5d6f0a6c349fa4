use eth_canon::err::{ConversionError, FieldName};
use eth_canon::fixed::ExtH160;
use eth_canon::uint::{ExtU256, U256};
use eth_canon::withdrawal::{ExtWithdrawal, Withdrawal};

#[test]
fn withdrawal_converts_exactly() {
    let w = ExtWithdrawal {
        index: 42,
        validator_index: 7,
        address: ExtH160 { bytes: [0x44; 20] },
        amount: ExtU256::from_u64(32_000_000_000),
    };
    let c = Withdrawal::try_from_ext(&w).expect("a fitting amount must convert");
    assert_eq!(c.index, 42);
    assert_eq!(c.validator_index, 7);
    assert_eq!(c.address.bytes, [0x44; 20]);
    assert_eq!(c.amount, 32_000_000_000);
}

#[test]
fn wide_amount_fails_narrowing() {
    let w = ExtWithdrawal {
        index: 0,
        validator_index: 0,
        address: ExtH160 { bytes: [0u8; 20] },
        amount: ExtU256 { limb0: 3, limb1: 2, limb2: 0, limb3: 0 },
    };
    assert_eq!(
        Withdrawal::try_from_ext(&w),
        Err(ConversionError::InvalidNumericConversion(
            FieldName::Amount,
            U256 { limb0: 3, limb1: 2, limb2: 0, limb3: 0 },
        ))
    );
}
