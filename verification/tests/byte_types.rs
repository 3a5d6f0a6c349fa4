use eth_canon::fixed::{
    copy_bytes, from_ethers_bloom, from_ethers_h160, from_ethers_h256, from_ethers_h64, ExtBloom,
    ExtH160, ExtH256, ExtH64,
};

#[test]
fn h160_roundtrip_preserves_bytes() {
    let mut raw = [0u8; 20];
    for (i, b) in raw.iter_mut().enumerate() {
        *b = i as u8 + 1;
    }
    let converted = from_ethers_h160(ExtH160 { bytes: raw });
    assert_eq!(converted.bytes, raw);
}

#[test]
fn h256_roundtrip_preserves_bytes() {
    let mut raw = [0u8; 32];
    for (i, b) in raw.iter_mut().enumerate() {
        *b = 0xff - i as u8;
    }
    let converted = from_ethers_h256(ExtH256 { bytes: raw });
    assert_eq!(converted.bytes, raw);
}

#[test]
fn h64_roundtrip_preserves_bytes() {
    let raw = [9u8, 8, 7, 6, 5, 4, 3, 2];
    let converted = from_ethers_h64(ExtH64 { bytes: raw });
    assert_eq!(converted.bytes, raw);
}

#[test]
fn bloom_roundtrip_preserves_bytes() {
    let mut raw = [0u8; 256];
    for (i, b) in raw.iter_mut().enumerate() {
        *b = (i % 251) as u8;
    }
    let converted = from_ethers_bloom(ExtBloom { bytes: raw });
    assert_eq!(converted.bytes.as_slice(), raw.as_slice());
}

#[test]
fn copy_bytes_preserves_payload() {
    let payload = vec![0u8, 1, 2, 0xde, 0xad, 0xbe, 0xef];
    assert_eq!(copy_bytes(&payload), payload);
    let empty: Vec<u8> = Vec::new();
    assert_eq!(copy_bytes(&empty), empty);
}
