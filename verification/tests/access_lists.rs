use eth_canon::access_list::{AccessList, ExtAccessList, ExtAccessListItem};
use eth_canon::fixed::{ExtH160, ExtH256};

#[test]
fn order_of_items_and_keys_is_preserved() {
    let addr_a = ExtH160 { bytes: [0xaa; 20] };
    let addr_b = ExtH160 { bytes: [0xbb; 20] };
    let k1 = ExtH256 { bytes: [0x01; 32] };
    let k2 = ExtH256 { bytes: [0x02; 32] };
    let ext = ExtAccessList(vec![
        ExtAccessListItem { address: addr_a, storage_keys: vec![k1, k2] },
        ExtAccessListItem { address: addr_b, storage_keys: vec![] },
    ]);

    let canon = AccessList::from_ext(&ext);
    assert_eq!(canon.0.len(), 2);
    assert_eq!(canon.0[0].address.bytes, [0xaa; 20]);
    assert_eq!(canon.0[0].storage_keys.len(), 2);
    assert_eq!(canon.0[0].storage_keys[0].bytes, [0x01; 32]);
    assert_eq!(canon.0[0].storage_keys[1].bytes, [0x02; 32]);
    assert_eq!(canon.0[1].address.bytes, [0xbb; 20]);
    assert!(canon.0[1].storage_keys.is_empty());
}

#[test]
fn empty_list_converts_to_empty_list() {
    let canon = AccessList::from_ext(&ExtAccessList(vec![]));
    assert!(canon.0.is_empty());
}
