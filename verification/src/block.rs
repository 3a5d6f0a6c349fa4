use vstd::prelude::*;

use crate::err::{ConversionError, FieldName};
use crate::fixed::{canon_b160, canon_b256, canon_b64, canon_bloom, copy_bytes, from_ethers_bloom,
    from_ethers_h160, from_ethers_h256, from_ethers_h64, B160, B256, B64, Bloom, ExtBloom,
    ExtH160, ExtH256, ExtH64};
use crate::uint::{canon_u256, from_ethers_u256, ExtU256, U256};

verus! {

/// An external block record as a JSON-RPC client library hands it out.
/// Fields that are defined only for some protocol eras, or that a pending
/// or partially fetched block lacks, are optional.
#[derive(Clone, Debug, PartialEq, Eq)]
pub struct ExtBlock {
    pub parent_hash: ExtH256,
    pub uncles_hash: ExtH256,
    pub author: Option<ExtH160>,
    pub state_root: ExtH256,
    pub transactions_root: ExtH256,
    pub receipts_root: ExtH256,
    pub logs_bloom: Option<ExtBloom>,
    pub difficulty: ExtU256,
    pub number: Option<u64>,
    pub gas_limit: ExtU256,
    pub gas_used: ExtU256,
    pub timestamp: ExtU256,
    pub extra_data: Vec<u8>,
    pub mix_hash: Option<ExtH256>,
    pub nonce: Option<ExtH64>,
    pub base_fee_per_gas: Option<ExtU256>,
    pub withdrawals_root: Option<ExtH256>,
}

/// The canonical block header. Every field the target protocol era defines
/// is present; only the withdrawals root stays optional, since withdrawals
/// arrived in a later upgrade.
#[derive(Clone, Debug, PartialEq, Eq)]
pub struct Header {
    pub parent_hash: B256,
    pub ommers_hash: B256,
    pub beneficiary: B160,
    pub state_root: B256,
    pub transactions_root: B256,
    pub receipts_root: B256,
    pub logs_bloom: Bloom,
    pub difficulty: U256,
    pub number: u64,
    pub gas_limit: U256,
    pub gas_used: U256,
    pub timestamp: U256,
    pub extra_data: Vec<u8>,
    pub mix_hash: B256,
    pub nonce: B64,
    pub base_fee_per_gas: U256,
    pub withdrawals_root: Option<B256>,
}

/// The first mandatory header field absent from an external block, in
/// checking order, or `None` when all are present. The withdrawals root is
/// deliberately not listed: its absence is never an error.
pub open spec fn header_missing(b: ExtBlock) -> Option<FieldName> {
    if b.author is None {
        Some(FieldName::Author)
    } else if b.logs_bloom is None {
        Some(FieldName::LogsBloom)
    } else if b.number is None {
        Some(FieldName::Number)
    } else if b.mix_hash is None {
        Some(FieldName::MixHash)
    } else if b.nonce is None {
        Some(FieldName::Nonce)
    } else if b.base_fee_per_gas is None {
        Some(FieldName::BaseFeePerGas)
    } else {
        None
    }
}

/// A canonical header is the exact image of the external block record.
pub open spec fn header_matches(h: Header, b: ExtBlock) -> bool {
    &&& h.parent_hash == canon_b256(b.parent_hash)
    &&& h.ommers_hash == canon_b256(b.uncles_hash)
    &&& b.author matches Some(a) && h.beneficiary == canon_b160(a)
    &&& h.state_root == canon_b256(b.state_root)
    &&& h.transactions_root == canon_b256(b.transactions_root)
    &&& h.receipts_root == canon_b256(b.receipts_root)
    &&& b.logs_bloom matches Some(lb) && h.logs_bloom == canon_bloom(lb)
    &&& h.difficulty == canon_u256(b.difficulty)
    &&& b.number matches Some(n) && h.number == n
    &&& h.gas_limit == canon_u256(b.gas_limit)
    &&& h.gas_used == canon_u256(b.gas_used)
    &&& h.timestamp == canon_u256(b.timestamp)
    &&& h.extra_data@ == b.extra_data@
    &&& b.mix_hash matches Some(m) && h.mix_hash == canon_b256(m)
    &&& b.nonce matches Some(n) && h.nonce == canon_b64(n)
    &&& b.base_fee_per_gas matches Some(f) && h.base_fee_per_gas == canon_u256(f)
    &&& match b.withdrawals_root {
        Option::None => h.withdrawals_root is None,
        Option::Some(w) => h.withdrawals_root == Some(canon_b256(w)),
    }
}

impl Header {
    /// Assemble the canonical header from an external block record, failing
    /// with the first mandatory field that is absent.
    ///
    /// Succeeds exactly when [`header_missing`] finds nothing; on success
    /// every field is the exact image of the record, and an absent
    /// withdrawals root maps to an absent canonical one, not to an error.
    pub fn try_from_ext(b: &ExtBlock) -> (r: Result<Header, ConversionError>)
        ensures
            r is Ok <==> header_missing(*b) is None,
            r matches Err(e) ==> header_missing(*b) matches Some(f) && e
                == ConversionError::MissingField(f),
            r matches Ok(h) ==> header_matches(h, *b),
    {
        let beneficiary: B160 = match b.author {
            Option::None => {
                return Err(ConversionError::MissingField(FieldName::Author));
            },
            Option::Some(a) => from_ethers_h160(a),
        };
        let logs_bloom: Bloom = match b.logs_bloom {
            Option::None => {
                return Err(ConversionError::MissingField(FieldName::LogsBloom));
            },
            Option::Some(lb) => from_ethers_bloom(lb),
        };
        let number: u64 = match b.number {
            Option::None => {
                return Err(ConversionError::MissingField(FieldName::Number));
            },
            Option::Some(n) => n,
        };
        let mix_hash: B256 = match b.mix_hash {
            Option::None => {
                return Err(ConversionError::MissingField(FieldName::MixHash));
            },
            Option::Some(m) => from_ethers_h256(m),
        };
        let nonce: B64 = match b.nonce {
            Option::None => {
                return Err(ConversionError::MissingField(FieldName::Nonce));
            },
            Option::Some(n) => from_ethers_h64(n),
        };
        let base_fee_per_gas: U256 = match b.base_fee_per_gas {
            Option::None => {
                return Err(ConversionError::MissingField(FieldName::BaseFeePerGas));
            },
            Option::Some(f) => from_ethers_u256(f),
        };
        let withdrawals_root: Option<B256> = match b.withdrawals_root {
            Option::None => None,
            Option::Some(w) => Some(from_ethers_h256(w)),
        };
        Ok(
            Header {
                parent_hash: from_ethers_h256(b.parent_hash),
                ommers_hash: from_ethers_h256(b.uncles_hash),
                beneficiary,
                state_root: from_ethers_h256(b.state_root),
                transactions_root: from_ethers_h256(b.transactions_root),
                receipts_root: from_ethers_h256(b.receipts_root),
                logs_bloom,
                difficulty: from_ethers_u256(b.difficulty),
                number,
                gas_limit: from_ethers_u256(b.gas_limit),
                gas_used: from_ethers_u256(b.gas_used),
                timestamp: from_ethers_u256(b.timestamp),
                extra_data: copy_bytes(&b.extra_data),
                mix_hash,
                nonce,
                base_fee_per_gas,
                withdrawals_root,
            },
        )
    }
}

/// The base fee is mandatory: a record carrying every other mandatory
/// field but no base fee fails on exactly that field.
pub proof fn lemma_base_fee_mandatory(b: ExtBlock)
    requires
        b.author is Some,
        b.logs_bloom is Some,
        b.number is Some,
        b.mix_hash is Some,
        b.nonce is Some,
        b.base_fee_per_gas is None,
    ensures
        header_missing(b) == Some(FieldName::BaseFeePerGas),
{
}

/// The withdrawals root is genuinely optional: taking it away from a
/// record never changes whether, or why, the conversion fails.
pub proof fn lemma_withdrawals_root_optional(b: ExtBlock)
    ensures
        header_missing(ExtBlock { withdrawals_root: None, ..b }) == header_missing(b),
{
}

} // verus!
