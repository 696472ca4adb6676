//! The packed form of the values that instructions carry: identifiers as
//! their 32 bytes, 64-bit numbers as eight little-endian bytes.

use crate::pubkey::{OptionalNonZeroPubkey, Pubkey};
use vstd::bytes::{spec_u64_from_le_bytes, spec_u64_to_le_bytes};
use vstd::prelude::*;

verus! {

/// Calls `spl_pod::primitives::PodU64::from` on a `u64` and hands back the
/// bytes that it holds. The contract says what they are: the eight bytes of
/// the number, least significant first.
#[verifier::external_body]
fn pod_u64_bytes(value: u64) -> (bytes: [u8; 8])
    ensures
        bytes@ == spec_u64_to_le_bytes(value),
{
    spl_pod::primitives::PodU64::from(value).0
}

/// Calls the conversion of `spl_pod::primitives::PodU64` into `u64` on
/// eight bytes. The contract says what it returns: the number of which they
/// are the bytes, least significant first.
#[verifier::external_body]
fn pod_u64_value(bytes: [u8; 8]) -> (value: u64)
    ensures
        value == spec_u64_from_le_bytes(bytes@),
{
    u64::from(spl_pod::primitives::PodU64(bytes))
}

/// Calls `spl_pod::bytemuck::pod_from_bytes` for an
/// `OptionalNonZeroPubkey` and hands back the bytes of what it found. The
/// contract says when it finds one, and which: the type is 32 bytes wide
/// and has no alignment, so exactly a slice of 32 bytes is taken, as it is.
#[verifier::external_body]
fn pod_key_from_bytes(bytes: &[u8]) -> (key: Option<[u8; 32]>)
    ensures
        key is Some <==> bytes@.len() == 32,
        key is Some ==> key->0@ == bytes@,
{
    match spl_pod::bytemuck::pod_from_bytes::<spl_pod::optional_keys::OptionalNonZeroPubkey>(
        bytes,
    ) {
        Ok(pod) => Some(pod.0.to_bytes()),
        Err(_) => None,
    }
}

/// Two identifiers with the same bytes are the same identifier.
pub proof fn lemma_pubkey_by_bytes(a: Pubkey, b: Pubkey)
    requires
        a@ == b@,
    ensures
        a == b,
{
    assert(a.bytes =~= b.bytes);
}

/// Appends the eight little-endian bytes of `value`.
pub fn push_u64(out: &mut Vec<u8>, value: u64)
    ensures
        final(out)@ == old(out)@ + spec_u64_to_le_bytes(value),
{
    let bytes = pod_u64_bytes(value);
    out.extend_from_slice(bytes.as_slice());
}

/// Reads the number whose eight little-endian bytes `bytes` holds.
pub fn read_u64(bytes: &[u8]) -> (value: Option<u64>)
    ensures
        value is Some <==> bytes@.len() == 8,
        value is Some ==> value->0 == spec_u64_from_le_bytes(bytes@),
{
    if bytes.len() != 8 {
        return None;
    }
    let held: [u8; 8] = [
        bytes[0],
        bytes[1],
        bytes[2],
        bytes[3],
        bytes[4],
        bytes[5],
        bytes[6],
        bytes[7],
    ];
    assert(held@ =~= bytes@);
    Some(pod_u64_value(held))
}

/// Appends the 32 bytes of a stored identifier.
pub fn push_key(out: &mut Vec<u8>, key: &OptionalNonZeroPubkey)
    ensures
        final(out)@ == old(out)@ + key.0@,
{
    out.extend_from_slice(key.0.bytes.as_slice());
}

/// Reads the stored identifier whose 32 bytes `bytes` holds.
pub fn read_key(bytes: &[u8]) -> (key: Option<OptionalNonZeroPubkey>)
    ensures
        key is Some <==> bytes@.len() == 32,
        key is Some ==> key->Some_0.0@ == bytes@,
{
    match pod_key_from_bytes(bytes) {
        Some(held) => Some(OptionalNonZeroPubkey(Pubkey { bytes: held })),
        None => None,
    }
}

} // verus!
