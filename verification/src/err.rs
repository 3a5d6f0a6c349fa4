use vstd::prelude::*;

use crate::uint::U256;

verus! {

/// Names of the external record fields that a conversion can report on.
///
/// A single variant stands for one field name as it appears in the external
/// JSON-RPC style record; `as_str` renders that exact name.
#[derive(Clone, Copy, Debug, PartialEq, Eq)]
pub enum FieldName {
    ChainId,
    Nonce,
    GasPrice,
    MaxPriorityFeePerGas,
    MaxFeePerGas,
    AccessList,
    Author,
    LogsBloom,
    Number,
    MixHash,
    BaseFeePerGas,
    Amount,
}

impl FieldName {
    /// The field's name in the external record, as a sequence of characters.
    pub open spec fn spec_name(self) -> Seq<char> {
        match self {
            FieldName::ChainId => "chain_id"@,
            FieldName::Nonce => "nonce"@,
            FieldName::GasPrice => "gas_price"@,
            FieldName::MaxPriorityFeePerGas => "max_priority_fee_per_gas"@,
            FieldName::MaxFeePerGas => "max_fee_per_gas"@,
            FieldName::AccessList => "access_list"@,
            FieldName::Author => "author"@,
            FieldName::LogsBloom => "logs_bloom"@,
            FieldName::Number => "number"@,
            FieldName::MixHash => "mix_hash"@,
            FieldName::BaseFeePerGas => "base_fee_per_gas"@,
            FieldName::Amount => "amount"@,
        }
    }

    /// The field's name in the external record.
    pub fn as_str(&self) -> (r: &'static str)
        ensures
            r@ == self.spec_name(),
    {
        match self {
            FieldName::ChainId => "chain_id",
            FieldName::Nonce => "nonce",
            FieldName::GasPrice => "gas_price",
            FieldName::MaxPriorityFeePerGas => "max_priority_fee_per_gas",
            FieldName::MaxFeePerGas => "max_fee_per_gas",
            FieldName::AccessList => "access_list",
            FieldName::Author => "author",
            FieldName::LogsBloom => "logs_bloom",
            FieldName::Number => "number",
            FieldName::MixHash => "mix_hash",
            FieldName::BaseFeePerGas => "base_fee_per_gas",
            FieldName::Amount => "amount",
        }
    }
}

/// Why a conversion failed.
///
/// Conversions stop at the first failure: either a field that the target
/// protocol variant mandates was absent, or a wide numeric value did not fit
/// the target's fixed width. The offending wide value is carried along with
/// the field name so the caller can diagnose without inspecting internals.
#[derive(Clone, Copy, Debug, PartialEq, Eq)]
pub enum ConversionError {
    /// A mandatory field was absent from the external record.
    MissingField(FieldName),
    /// A 256-bit value did not fit the narrower target field; carries the
    /// out-of-range value.
    InvalidNumericConversion(FieldName, U256),
}

} // verus!
