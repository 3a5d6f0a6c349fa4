use vstd::prelude::*;

verus! {

/// A 160-bit address in its external form: 20 raw bytes.
#[derive(Clone, Copy, Debug, PartialEq, Eq)]
pub struct ExtH160 {
    pub bytes: [u8; 20],
}

/// A 256-bit hash in its external form: 32 raw bytes.
#[derive(Clone, Copy, Debug, PartialEq, Eq)]
pub struct ExtH256 {
    pub bytes: [u8; 32],
}

/// A 64-bit block seal nonce in its external form: 8 raw bytes.
#[derive(Clone, Copy, Debug, PartialEq, Eq)]
pub struct ExtH64 {
    pub bytes: [u8; 8],
}

/// A 2048-bit log bloom filter in its external form: 256 raw bytes.
#[derive(Clone, Copy, Debug, PartialEq, Eq)]
pub struct ExtBloom {
    pub bytes: [u8; 256],
}

/// The canonical 160-bit byte sequence (an address).
#[derive(Clone, Copy, Debug, PartialEq, Eq)]
pub struct B160 {
    pub bytes: [u8; 20],
}

/// The canonical 256-bit byte sequence (a hash or storage key).
#[derive(Clone, Copy, Debug, PartialEq, Eq)]
pub struct B256 {
    pub bytes: [u8; 32],
}

/// The canonical 64-bit byte sequence (a block seal nonce).
#[derive(Clone, Copy, Debug, PartialEq, Eq)]
pub struct B64 {
    pub bytes: [u8; 8],
}

/// The canonical log bloom filter.
#[derive(Clone, Copy, Debug, PartialEq, Eq)]
pub struct Bloom {
    pub bytes: [u8; 256],
}

/// The canonical address that reinterpreting an external one yields.
pub open spec fn canon_b160(v: ExtH160) -> B160 {
    B160 { bytes: v.bytes }
}

/// The canonical hash that reinterpreting an external one yields.
pub open spec fn canon_b256(v: ExtH256) -> B256 {
    B256 { bytes: v.bytes }
}

/// The canonical seal nonce that reinterpreting an external one yields.
pub open spec fn canon_b64(v: ExtH64) -> B64 {
    B64 { bytes: v.bytes }
}

/// The canonical bloom filter that reinterpreting an external one yields.
pub open spec fn canon_bloom(v: ExtBloom) -> Bloom {
    Bloom { bytes: v.bytes }
}

/// Reinterpret an external 160-bit value as the canonical address type.
///
/// Infallible and lossless: the lengths agree by construction, and reading
/// the raw bytes back yields the original bytes unchanged.
pub fn from_ethers_h160(v: ExtH160) -> (r: B160)
    ensures
        r == canon_b160(v),
        r.bytes == v.bytes,
{
    B160 { bytes: v.bytes }
}

/// Reinterpret an external 256-bit value as the canonical hash type.
///
/// Infallible and lossless, exactly as [`from_ethers_h160`].
pub fn from_ethers_h256(v: ExtH256) -> (r: B256)
    ensures
        r == canon_b256(v),
        r.bytes == v.bytes,
{
    B256 { bytes: v.bytes }
}

/// Reinterpret an external 64-bit seal nonce as the canonical type.
pub fn from_ethers_h64(v: ExtH64) -> (r: B64)
    ensures
        r == canon_b64(v),
        r.bytes == v.bytes,
{
    B64 { bytes: v.bytes }
}

/// Reinterpret an external log bloom filter as the canonical type.
pub fn from_ethers_bloom(v: ExtBloom) -> (r: Bloom)
    ensures
        r == canon_bloom(v),
        r.bytes == v.bytes,
{
    Bloom { bytes: v.bytes }
}

/// Copy an opaque, unconstrained byte payload (call data, header extra
/// data) unchanged.
pub fn copy_bytes(v: &Vec<u8>) -> (r: Vec<u8>)
    ensures
        r@ == v@,
{
    let mut r: Vec<u8> = Vec::new();
    let mut i: usize = 0;
    while i < v.len()
        invariant
            i <= v.len(),
            r@.len() == i,
            forall|k: int| 0 <= k < i ==> r@[k] == v@[k],
        decreases v.len() - i,
    {
        r.push(v[i]);
        i = i + 1;
    }
    proof {
        assert(r@ =~= v@);
    }
    r
}

} // verus!
