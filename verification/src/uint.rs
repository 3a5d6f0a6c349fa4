use vstd::prelude::*;

use crate::err::{ConversionError, FieldName};

verus! {

/// A 256-bit unsigned integer in its external form: four 64-bit limbs,
/// least significant first, exactly as the JSON-RPC client library lays
/// them out.
#[derive(Clone, Copy, Debug, PartialEq, Eq)]
pub struct ExtU256 {
    pub limb0: u64,
    pub limb1: u64,
    pub limb2: u64,
    pub limb3: u64,
}

/// The canonical 256-bit unsigned integer: same four little-endian limbs,
/// bit for bit equal to the external value it was built from.
#[derive(Clone, Copy, Debug, PartialEq, Eq)]
pub struct U256 {
    pub limb0: u64,
    pub limb1: u64,
    pub limb2: u64,
    pub limb3: u64,
}

/// The numeric value of an external 256-bit integer.
pub open spec fn ext_u256_value(v: ExtU256) -> nat {
    v.limb0 as nat + v.limb1 as nat * 0x1_0000_0000_0000_0000
        + v.limb2 as nat * 0x1_0000_0000_0000_0000_0000_0000_0000_0000
        + v.limb3 as nat * 0x1_0000_0000_0000_0000_0000_0000_0000_0000_0000_0000_0000_0000
}

/// The numeric value of a canonical 256-bit integer.
pub open spec fn u256_value(v: U256) -> nat {
    v.limb0 as nat + v.limb1 as nat * 0x1_0000_0000_0000_0000
        + v.limb2 as nat * 0x1_0000_0000_0000_0000_0000_0000_0000_0000
        + v.limb3 as nat * 0x1_0000_0000_0000_0000_0000_0000_0000_0000_0000_0000_0000_0000
}

/// The canonical integer that reinterpreting an external one yields.
pub open spec fn canon_u256(v: ExtU256) -> U256 {
    U256 { limb0: v.limb0, limb1: v.limb1, limb2: v.limb2, limb3: v.limb3 }
}

/// Whether an external 256-bit value fits a 64-bit field.
pub open spec fn fits_u64(v: ExtU256) -> bool {
    ext_u256_value(v) <= u64::MAX
}

impl ExtU256 {
    /// An external 256-bit integer holding a small value, handy for callers
    /// that build records from plain numbers.
    pub fn from_u64(x: u64) -> (r: ExtU256)
        ensures
            ext_u256_value(r) == x,
            r == (ExtU256 { limb0: x, limb1: 0u64, limb2: 0u64, limb3: 0u64 }),
    {
        ExtU256 { limb0: x, limb1: 0, limb2: 0, limb3: 0 }
    }
}

impl U256 {
    /// A canonical 256-bit integer holding a small value.
    pub fn from_u64(x: u64) -> (r: U256)
        ensures
            u256_value(r) == x,
            r == (U256 { limb0: x, limb1: 0u64, limb2: 0u64, limb3: 0u64 }),
    {
        U256 { limb0: x, limb1: 0, limb2: 0, limb3: 0 }
    }
}

/// Reinterpret an external 256-bit integer as the canonical one.
///
/// Same-width conversion is infallible and lossless: the limbs are copied
/// bit for bit, so the numeric value is preserved exactly.
pub fn from_ethers_u256(v: ExtU256) -> (r: U256)
    ensures
        r == canon_u256(v),
        u256_value(r) == ext_u256_value(v),
{
    U256 { limb0: v.limb0, limb1: v.limb1, limb2: v.limb2, limb3: v.limb3 }
}

/// Narrow an external 256-bit value into a 64-bit field.
///
/// Succeeds exactly when the value fits 64 bits, and then preserves the
/// numeric value; any larger value is a hard error carrying the field name
/// and the out-of-range value — never a silent truncation.
pub fn try_to_u64(v: ExtU256, field: FieldName) -> (r: Result<u64, ConversionError>)
    ensures
        r is Ok <==> fits_u64(v),
        r matches Ok(x) ==> x == v.limb0 && x as nat == ext_u256_value(v),
        r matches Err(e) ==> e == ConversionError::InvalidNumericConversion(field, canon_u256(v)),
{
    if v.limb1 == 0 && v.limb2 == 0 && v.limb3 == 0 {
        Ok(v.limb0)
    } else {
        Err(ConversionError::InvalidNumericConversion(field, from_ethers_u256(v)))
    }
}

} // verus!
