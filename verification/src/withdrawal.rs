use vstd::prelude::*;

use crate::err::{ConversionError, FieldName};
use crate::fixed::{canon_b160, from_ethers_h160, B160, ExtH160};
use crate::uint::{canon_u256, ext_u256_value, fits_u64, try_to_u64, ExtU256};

verus! {

/// An external withdrawal record. The external type guarantees all four
/// fields structurally, so none is optional here.
#[derive(Clone, Copy, Debug, PartialEq, Eq)]
pub struct ExtWithdrawal {
    pub index: u64,
    pub validator_index: u64,
    pub address: ExtH160,
    pub amount: ExtU256,
}

/// A canonical beacon-chain withdrawal: all scalar, no nested structure.
#[derive(Clone, Copy, Debug, PartialEq, Eq)]
pub struct Withdrawal {
    pub index: u64,
    pub validator_index: u64,
    pub address: B160,
    pub amount: u64,
}

/// The one canonical withdrawal an external record yields: the amount is
/// narrowed to 64 bits through the same overflow check every other
/// narrowing uses, everything else is carried over exactly.
pub open spec fn spec_withdrawal(w: ExtWithdrawal) -> Result<Withdrawal, ConversionError> {
    if fits_u64(w.amount) {
        Ok(
            Withdrawal {
                index: w.index,
                validator_index: w.validator_index,
                address: canon_b160(w.address),
                amount: w.amount.limb0,
            },
        )
    } else {
        Err(ConversionError::InvalidNumericConversion(FieldName::Amount, canon_u256(w.amount)))
    }
}

impl Withdrawal {
    /// Assemble the canonical withdrawal: indices and address carried over
    /// exactly, the amount narrowed with a hard error on overflow.
    pub fn try_from_ext(w: &ExtWithdrawal) -> (r: Result<Withdrawal, ConversionError>)
        ensures
            r == spec_withdrawal(*w),
            r matches Ok(wd) ==> wd.amount as nat == ext_u256_value(w.amount),
    {
        let amount: u64 = try_to_u64(w.amount, FieldName::Amount)?;
        Ok(
            Withdrawal {
                index: w.index,
                validator_index: w.validator_index,
                address: from_ethers_h160(w.address),
                amount,
            },
        )
    }
}

} // verus!
