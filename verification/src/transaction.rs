use vstd::prelude::*;

use crate::access_list::{list_matches, AccessList, ExtAccessList};
use crate::err::{ConversionError, FieldName};
use crate::fixed::{canon_b160, copy_bytes, from_ethers_h160, B160, ExtH160};
use crate::uint::{canon_u256, ext_u256_value, fits_u64, from_ethers_u256, try_to_u64, ExtU256,
    U256};

verus! {

/// What a transaction is aimed at: contract creation (no destination) or a
/// message call to a destination address.
#[derive(Clone, Copy, Debug, PartialEq, Eq)]
pub enum TransactionKind {
    Create,
    Call(B160),
}

impl TransactionKind {
    /// The kind an external "to" field denotes: absent means `Create`,
    /// present means `Call` to that address.
    pub open spec fn spec_from_ext(to: Option<ExtH160>) -> TransactionKind {
        match to {
            Option::None => TransactionKind::Create,
            Option::Some(a) => TransactionKind::Call(canon_b160(a)),
        }
    }

    /// Derive the destination kind from the external "to" field: a null
    /// destination is a contract creation, anything else is a call to the
    /// given address, preserved bit for bit.
    pub fn from_ext(to: &Option<ExtH160>) -> (r: TransactionKind)
        ensures
            r == TransactionKind::spec_from_ext(*to),
    {
        match to {
            Option::None => TransactionKind::Create,
            Option::Some(a) => TransactionKind::Call(from_ethers_h160(*a)),
        }
    }
}

/// A legacy (pre-typed) transaction essence. The chain id is genuinely
/// optional: transactions older than replay protection carry none.
#[derive(Clone, Debug, PartialEq, Eq)]
pub struct TxEssenceLegacy {
    pub chain_id: Option<u64>,
    pub nonce: u64,
    pub gas_price: U256,
    pub gas_limit: U256,
    pub to: TransactionKind,
    pub value: U256,
    pub data: Vec<u8>,
}

/// An access-list transaction essence: as legacy, but the chain id is
/// mandatory and an access list is carried.
#[derive(Clone, Debug, PartialEq, Eq)]
pub struct TxEssenceEip2930 {
    pub chain_id: u64,
    pub nonce: u64,
    pub gas_price: U256,
    pub gas_limit: U256,
    pub to: TransactionKind,
    pub value: U256,
    pub access_list: AccessList,
    pub data: Vec<u8>,
}

/// A fee-market transaction essence: as the access-list form, but the single
/// gas price is superseded by a max priority fee and a max fee.
#[derive(Clone, Debug, PartialEq, Eq)]
pub struct TxEssenceEip1559 {
    pub chain_id: u64,
    pub nonce: u64,
    pub max_priority_fee_per_gas: U256,
    pub max_fee_per_gas: U256,
    pub gas_limit: U256,
    pub to: TransactionKind,
    pub value: U256,
    pub access_list: AccessList,
    pub data: Vec<u8>,
}

/// Exactly one protocol-era variant per transaction; which one is fully
/// determined by the external type discriminant.
#[derive(Clone, Debug, PartialEq, Eq)]
pub enum TxEssence {
    Legacy(TxEssenceLegacy),
    Eip2930(TxEssenceEip2930),
    Eip1559(TxEssenceEip1559),
}

/// A transaction signature: recovery parameter and the two scalars, carried
/// verbatim — no cryptographic validation happens here.
#[derive(Clone, Copy, Debug, PartialEq, Eq)]
pub struct TxSignature {
    pub v: u64,
    pub r: U256,
    pub s: U256,
}

/// A canonical transaction: an essence plus its signature, immutable once
/// constructed.
#[derive(Clone, Debug, PartialEq, Eq)]
pub struct Transaction {
    pub essence: TxEssence,
    pub signature: TxSignature,
}

/// An external transaction record as a JSON-RPC client library hands it
/// out: loosely typed, with every era-specific field optional.
#[derive(Clone, Debug, PartialEq, Eq)]
pub struct ExtTransaction {
    pub transaction_type: Option<u64>,
    pub chain_id: Option<ExtU256>,
    pub nonce: ExtU256,
    pub gas_price: Option<ExtU256>,
    pub gas: ExtU256,
    pub to: Option<ExtH160>,
    pub value: ExtU256,
    pub input: Vec<u8>,
    pub access_list: Option<ExtAccessList>,
    pub max_priority_fee_per_gas: Option<ExtU256>,
    pub max_fee_per_gas: Option<ExtU256>,
    pub v: u64,
    pub r: ExtU256,
    pub s: ExtU256,
}

/// An absent discriminant and the value 0 both denote a legacy transaction.
pub open spec fn is_legacy_type(t: Option<u64>) -> bool {
    t is None || t == Some(0u64)
}

/// The discriminant domain the external source is assumed to respect:
/// absent, 0, 1 or 2. Anything else is an upstream invariant breach, not
/// recoverable bad data, and is excluded from the converter's inputs.
pub open spec fn supported_tx_type(t: Option<u64>) -> bool {
    is_legacy_type(t) || t == Some(1u64) || t == Some(2u64)
}

/// Runtime check of [`supported_tx_type`], for callers that must guard the
/// converter's precondition against untrusted records.
pub fn is_supported_tx_type(t: &Option<u64>) -> (r: bool)
    ensures
        r == supported_tx_type(*t),
{
    match t {
        Option::None => true,
        Option::Some(x) => *x == 0 || *x == 1 || *x == 2,
    }
}

/// The error a chain id field yields, if any: absent while mandatory, or
/// present but too wide for 64 bits.
pub open spec fn chain_id_error(c: Option<ExtU256>, mandatory: bool) -> Option<ConversionError> {
    match c {
        Option::None => if mandatory {
            Some(ConversionError::MissingField(FieldName::ChainId))
        } else {
            None
        },
        Option::Some(v) => if !fits_u64(v) {
            Some(ConversionError::InvalidNumericConversion(FieldName::ChainId, canon_u256(v)))
        } else {
            None
        },
    }
}

/// The first failure a legacy record runs into, in checking order:
/// chain id narrowing (when present), nonce narrowing, gas price presence.
pub open spec fn legacy_error(tx: ExtTransaction) -> Option<ConversionError> {
    if chain_id_error(tx.chain_id, false) is Some {
        chain_id_error(tx.chain_id, false)
    } else if !fits_u64(tx.nonce) {
        Some(ConversionError::InvalidNumericConversion(FieldName::Nonce, canon_u256(tx.nonce)))
    } else if tx.gas_price is None {
        Some(ConversionError::MissingField(FieldName::GasPrice))
    } else {
        None
    }
}

/// The first failure an access-list record runs into, in checking order:
/// chain id presence and narrowing, nonce narrowing, gas price presence,
/// access list presence.
pub open spec fn eip2930_error(tx: ExtTransaction) -> Option<ConversionError> {
    if chain_id_error(tx.chain_id, true) is Some {
        chain_id_error(tx.chain_id, true)
    } else if !fits_u64(tx.nonce) {
        Some(ConversionError::InvalidNumericConversion(FieldName::Nonce, canon_u256(tx.nonce)))
    } else if tx.gas_price is None {
        Some(ConversionError::MissingField(FieldName::GasPrice))
    } else if tx.access_list is None {
        Some(ConversionError::MissingField(FieldName::AccessList))
    } else {
        None
    }
}

/// The first failure a fee-market record runs into, in checking order:
/// chain id presence and narrowing, nonce narrowing, the two fee fields'
/// presence, access list presence.
pub open spec fn eip1559_error(tx: ExtTransaction) -> Option<ConversionError> {
    if chain_id_error(tx.chain_id, true) is Some {
        chain_id_error(tx.chain_id, true)
    } else if !fits_u64(tx.nonce) {
        Some(ConversionError::InvalidNumericConversion(FieldName::Nonce, canon_u256(tx.nonce)))
    } else if tx.max_priority_fee_per_gas is None {
        Some(ConversionError::MissingField(FieldName::MaxPriorityFeePerGas))
    } else if tx.max_fee_per_gas is None {
        Some(ConversionError::MissingField(FieldName::MaxFeePerGas))
    } else if tx.access_list is None {
        Some(ConversionError::MissingField(FieldName::AccessList))
    } else {
        None
    }
}

/// The first failure converting a record runs into, or `None` when it is
/// well formed for the variant its discriminant selects.
pub open spec fn tx_error(tx: ExtTransaction) -> Option<ConversionError> {
    if is_legacy_type(tx.transaction_type) {
        legacy_error(tx)
    } else if tx.transaction_type == Some(1u64) {
        eip2930_error(tx)
    } else {
        eip1559_error(tx)
    }
}

/// An optional chain id was carried over exactly: absent stays absent,
/// present is the narrowed numeric value.
pub open spec fn chain_id_opt_matches(c: Option<u64>, x: Option<ExtU256>) -> bool {
    match x {
        Option::None => c is None,
        Option::Some(v) => c is Some && c->0 as nat == ext_u256_value(v),
    }
}

/// A legacy essence is the exact image of the external record.
pub open spec fn legacy_matches(e: TxEssenceLegacy, tx: ExtTransaction) -> bool {
    &&& chain_id_opt_matches(e.chain_id, tx.chain_id)
    &&& e.nonce as nat == ext_u256_value(tx.nonce)
    &&& tx.gas_price matches Some(gp) && e.gas_price == canon_u256(gp)
    &&& e.gas_limit == canon_u256(tx.gas)
    &&& e.to == TransactionKind::spec_from_ext(tx.to)
    &&& e.value == canon_u256(tx.value)
    &&& e.data@ == tx.input@
}

/// An access-list essence is the exact image of the external record.
pub open spec fn eip2930_matches(e: TxEssenceEip2930, tx: ExtTransaction) -> bool {
    &&& tx.chain_id matches Some(c) && e.chain_id as nat == ext_u256_value(c)
    &&& e.nonce as nat == ext_u256_value(tx.nonce)
    &&& tx.gas_price matches Some(gp) && e.gas_price == canon_u256(gp)
    &&& e.gas_limit == canon_u256(tx.gas)
    &&& e.to == TransactionKind::spec_from_ext(tx.to)
    &&& e.value == canon_u256(tx.value)
    &&& tx.access_list matches Some(al) && list_matches(e.access_list, al)
    &&& e.data@ == tx.input@
}

/// A fee-market essence is the exact image of the external record.
pub open spec fn eip1559_matches(e: TxEssenceEip1559, tx: ExtTransaction) -> bool {
    &&& tx.chain_id matches Some(c) && e.chain_id as nat == ext_u256_value(c)
    &&& e.nonce as nat == ext_u256_value(tx.nonce)
    &&& tx.max_priority_fee_per_gas matches Some(f) && e.max_priority_fee_per_gas == canon_u256(f)
    &&& tx.max_fee_per_gas matches Some(f) && e.max_fee_per_gas == canon_u256(f)
    &&& e.gas_limit == canon_u256(tx.gas)
    &&& e.to == TransactionKind::spec_from_ext(tx.to)
    &&& e.value == canon_u256(tx.value)
    &&& tx.access_list matches Some(al) && list_matches(e.access_list, al)
    &&& e.data@ == tx.input@
}

/// The essence holds the one variant the discriminant selects, populated
/// exactly from the record.
pub open spec fn essence_matches(e: TxEssence, tx: ExtTransaction) -> bool {
    match e {
        TxEssence::Legacy(l) => is_legacy_type(tx.transaction_type) && legacy_matches(l, tx),
        TxEssence::Eip2930(a) => tx.transaction_type == Some(1u64) && eip2930_matches(a, tx),
        TxEssence::Eip1559(f) => tx.transaction_type == Some(2u64) && eip1559_matches(f, tx),
    }
}

/// The signature scalars were carried verbatim.
pub open spec fn signature_matches(s: TxSignature, tx: ExtTransaction) -> bool {
    s == (TxSignature { v: tx.v, r: canon_u256(tx.r), s: canon_u256(tx.s) })
}

impl Transaction {
    /// Classify an external record by its discriminant, validate the fields
    /// that variant mandates, and assemble the canonical transaction.
    ///
    /// Succeeds exactly on the records [`tx_error`] accepts; fails with the
    /// first missing-field or narrowing failure in checking order, never
    /// producing a partial transaction. On success the essence variant
    /// matches the discriminant and every field is the exact image of the
    /// record.
    pub fn try_from_ext(tx: &ExtTransaction) -> (r: Result<Transaction, ConversionError>)
        requires
            supported_tx_type(tx.transaction_type),
        ensures
            r is Ok <==> tx_error(*tx) is None,
            r matches Err(e) ==> tx_error(*tx) == Some(e),
            r matches Ok(t) ==> essence_matches(t.essence, *tx) && signature_matches(
                t.signature,
                *tx,
            ),
    {
        let legacy = match tx.transaction_type {
            Option::None => true,
            Option::Some(t) => t == 0,
        };
        let essence: TxEssence = if legacy {
            let chain_id: Option<u64> = match tx.chain_id {
                Option::None => None,
                Option::Some(c) => Some(try_to_u64(c, FieldName::ChainId)?),
            };
            let nonce: u64 = try_to_u64(tx.nonce, FieldName::Nonce)?;
            let gas_price: U256 = match tx.gas_price {
                Option::None => {
                    return Err(ConversionError::MissingField(FieldName::GasPrice));
                },
                Option::Some(gp) => from_ethers_u256(gp),
            };
            TxEssence::Legacy(
                TxEssenceLegacy {
                    chain_id,
                    nonce,
                    gas_price,
                    gas_limit: from_ethers_u256(tx.gas),
                    to: TransactionKind::from_ext(&tx.to),
                    value: from_ethers_u256(tx.value),
                    data: copy_bytes(&tx.input),
                },
            )
        } else if tx.transaction_type == Some(1) {
            let chain_id: u64 = match tx.chain_id {
                Option::None => {
                    return Err(ConversionError::MissingField(FieldName::ChainId));
                },
                Option::Some(c) => try_to_u64(c, FieldName::ChainId)?,
            };
            let nonce: u64 = try_to_u64(tx.nonce, FieldName::Nonce)?;
            let gas_price: U256 = match tx.gas_price {
                Option::None => {
                    return Err(ConversionError::MissingField(FieldName::GasPrice));
                },
                Option::Some(gp) => from_ethers_u256(gp),
            };
            let access_list: AccessList = match &tx.access_list {
                Option::None => {
                    return Err(ConversionError::MissingField(FieldName::AccessList));
                },
                Option::Some(al) => AccessList::from_ext(al),
            };
            TxEssence::Eip2930(
                TxEssenceEip2930 {
                    chain_id,
                    nonce,
                    gas_price,
                    gas_limit: from_ethers_u256(tx.gas),
                    to: TransactionKind::from_ext(&tx.to),
                    value: from_ethers_u256(tx.value),
                    access_list,
                    data: copy_bytes(&tx.input),
                },
            )
        } else {
            let chain_id: u64 = match tx.chain_id {
                Option::None => {
                    return Err(ConversionError::MissingField(FieldName::ChainId));
                },
                Option::Some(c) => try_to_u64(c, FieldName::ChainId)?,
            };
            let nonce: u64 = try_to_u64(tx.nonce, FieldName::Nonce)?;
            let max_priority_fee_per_gas: U256 = match tx.max_priority_fee_per_gas {
                Option::None => {
                    return Err(ConversionError::MissingField(FieldName::MaxPriorityFeePerGas));
                },
                Option::Some(f) => from_ethers_u256(f),
            };
            let max_fee_per_gas: U256 = match tx.max_fee_per_gas {
                Option::None => {
                    return Err(ConversionError::MissingField(FieldName::MaxFeePerGas));
                },
                Option::Some(f) => from_ethers_u256(f),
            };
            let access_list: AccessList = match &tx.access_list {
                Option::None => {
                    return Err(ConversionError::MissingField(FieldName::AccessList));
                },
                Option::Some(al) => AccessList::from_ext(al),
            };
            TxEssence::Eip1559(
                TxEssenceEip1559 {
                    chain_id,
                    nonce,
                    max_priority_fee_per_gas,
                    max_fee_per_gas,
                    gas_limit: from_ethers_u256(tx.gas),
                    to: TransactionKind::from_ext(&tx.to),
                    value: from_ethers_u256(tx.value),
                    access_list,
                    data: copy_bytes(&tx.input),
                },
            )
        };
        let signature = TxSignature {
            v: tx.v,
            r: from_ethers_u256(tx.r),
            s: from_ethers_u256(tx.s),
        };
        Ok(Transaction { essence, signature })
    }
}

/// The first mandatory field the variant the discriminant selects finds
/// absent, in checking order, or `None` when every mandatory field is
/// present. Narrowing is set aside here: this is presence alone.
pub open spec fn tx_missing(tx: ExtTransaction) -> Option<FieldName> {
    if is_legacy_type(tx.transaction_type) {
        if tx.gas_price is None {
            Some(FieldName::GasPrice)
        } else {
            None
        }
    } else if tx.transaction_type == Some(1u64) {
        if tx.chain_id is None {
            Some(FieldName::ChainId)
        } else if tx.gas_price is None {
            Some(FieldName::GasPrice)
        } else if tx.access_list is None {
            Some(FieldName::AccessList)
        } else {
            None
        }
    } else {
        if tx.chain_id is None {
            Some(FieldName::ChainId)
        } else if tx.max_priority_fee_per_gas is None {
            Some(FieldName::MaxPriorityFeePerGas)
        } else if tx.max_fee_per_gas is None {
            Some(FieldName::MaxFeePerGas)
        } else if tx.access_list is None {
            Some(FieldName::AccessList)
        } else {
            None
        }
    }
}

/// Every numeric field that is narrowed to 64 bits fits 64 bits.
pub open spec fn tx_numerics_fit(tx: ExtTransaction) -> bool {
    &&& tx.chain_id matches Some(c) ==> fits_u64(c)
    &&& fits_u64(tx.nonce)
}

/// Law: a well-formed record always converts. Whichever variant the
/// discriminant selects, if every field that variant mandates is present
/// and the narrowed numerics fit, the conversion finds no error — and so,
/// by [`Transaction::try_from_ext`]'s contract, it succeeds and the essence
/// variant matches the discriminant exactly.
pub proof fn lemma_complete_record_converts(tx: ExtTransaction)
    requires
        supported_tx_type(tx.transaction_type),
        tx_numerics_fit(tx),
        tx_missing(tx) is None,
    ensures
        tx_error(tx) is None,
{
}

/// Law: a record whose only defect is an absent mandatory field fails with
/// `MissingField` naming exactly the first such field in checking order,
/// and no other error.
pub proof fn lemma_missing_field_detected(tx: ExtTransaction, f: FieldName)
    requires
        supported_tx_type(tx.transaction_type),
        tx_numerics_fit(tx),
        tx_missing(tx) == Some(f),
    ensures
        tx_error(tx) == Some(ConversionError::MissingField(f)),
{
}

} // verus!
