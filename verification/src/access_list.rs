use vstd::prelude::*;

use crate::fixed::{canon_b160, canon_b256, from_ethers_h160, from_ethers_h256, B160, B256, ExtH160,
    ExtH256};

verus! {

/// One entry of an external access list: an address and the storage keys
/// the transaction pre-declares for it, in the order the record gives them.
#[derive(Clone, Debug, PartialEq, Eq)]
pub struct ExtAccessListItem {
    pub address: ExtH160,
    pub storage_keys: Vec<ExtH256>,
}

/// An external access list: an ordered sequence of items.
#[derive(Clone, Debug, PartialEq, Eq)]
pub struct ExtAccessList(pub Vec<ExtAccessListItem>);

/// One entry of the canonical access list.
#[derive(Clone, Debug, PartialEq, Eq)]
pub struct AccessListItem {
    pub address: B160,
    pub storage_keys: Vec<B256>,
}

/// The canonical access list. Order is significant — it affects gas
/// accounting in the originating protocol — and is preserved exactly.
#[derive(Clone, Debug, PartialEq, Eq)]
pub struct AccessList(pub Vec<AccessListItem>);

/// A canonical item is the exact image of an external one: same address,
/// and the storage keys converted one for one in the same order.
pub open spec fn item_matches(c: AccessListItem, x: ExtAccessListItem) -> bool {
    &&& c.address == canon_b160(x.address)
    &&& c.storage_keys@ == x.storage_keys@.map_values(|k: ExtH256| canon_b256(k))
}

/// A canonical list is the exact image of an external one: same length,
/// and the item at every position is the image of the external item at
/// that same position.
pub open spec fn list_matches(c: AccessList, x: ExtAccessList) -> bool {
    &&& c.0@.len() == x.0@.len()
    &&& forall|i: int| 0 <= i < x.0@.len() ==> item_matches(#[trigger] c.0@[i], x.0@[i])
}

impl AccessListItem {
    /// Convert one external item; the address bit for bit, the storage
    /// keys one for one with their order kept.
    pub fn from_ext(x: &ExtAccessListItem) -> (r: AccessListItem)
        ensures
            item_matches(r, *x),
    {
        let mut keys: Vec<B256> = Vec::new();
        let mut j: usize = 0;
        while j < x.storage_keys.len()
            invariant
                j <= x.storage_keys.len(),
                keys@.len() == j,
                forall|k: int| 0 <= k < j ==> keys@[k] == canon_b256(x.storage_keys@[k]),
            decreases x.storage_keys.len() - j,
        {
            keys.push(from_ethers_h256(x.storage_keys[j]));
            j = j + 1;
        }
        proof {
            assert(keys@ =~= x.storage_keys@.map_values(|k: ExtH256| canon_b256(k)));
        }
        AccessListItem { address: from_ethers_h160(x.address), storage_keys: keys }
    }
}

impl AccessList {
    /// Convert an external access list, preserving item order and, within
    /// each item, storage key order.
    pub fn from_ext(x: &ExtAccessList) -> (r: AccessList)
        ensures
            list_matches(r, *x),
    {
        let mut items: Vec<AccessListItem> = Vec::new();
        let mut i: usize = 0;
        while i < x.0.len()
            invariant
                i <= x.0.len(),
                items@.len() == i,
                forall|k: int| 0 <= k < i ==> item_matches(#[trigger] items@[k], x.0@[k]),
            decreases x.0.len() - i,
        {
            items.push(AccessListItem::from_ext(&x.0[i]));
            i = i + 1;
        }
        AccessList(items)
    }
}

} // verus!
