use vstd::prelude::*;
use crate::natives::cryptography::scalar_field::{is_canonical, scalar_is_canonical};

verus! {

/// The costs of the scalar natives, in internal gas units.
#[derive(Debug, Clone, Copy)]
pub struct GasParameters {
    pub base_cost: u64,
    pub scalar_add_cost: u64,
    pub scalar_from_256_bits_cost: u64,
    pub scalar_from_64_uniform_bytes_cost: u64,
    pub scalar_from_u128_cost: u64,
    pub scalar_from_u64_cost: u64,
    pub scalar_invert_cost: u64,
    pub scalar_is_canonical_cost: u64,
    pub scalar_mul_cost: u64,
    pub scalar_neg_cost: u64,
    pub scalar_sub_cost: u64,
    pub sha512_per_byte_cost: u64,
    pub sha512_per_hash_cost: u64,
}

/// The cost that a native has run up so far.
pub struct GasCost(pub u64);

impl GasCost {
    /// Charges `num` more.
    pub fn add(&mut self, num: u64)
        requires
            old(self).0 + num <= u64::MAX,
        ensures
            final(self).0 == old(self).0 + num,
    {
        self.0 = self.0 + num;
    }
}

/// `bytes` as an array, if there are 32 of them.
pub fn to_32_byte_array(bytes: &Vec<u8>) -> (array: Option<[u8; 32]>)
    ensures
        array is Some <==> bytes@.len() == 32,
        array matches Some(a) ==> a@ == bytes@,
{
    if bytes.len() != 32 {
        return None;
    }
    let mut array = [0u8; 32];
    let mut i: usize = 0;
    while i < 32
        invariant
            i <= 32,
            bytes@.len() == 32,
            forall|k: int| 0 <= k < i ==> array@[k] == bytes@[k],
        decreases 32 - i,
    {
        array[i] = bytes[i];
        i += 1;
    }
    assert(array@ =~= bytes@);
    Some(array)
}

/// `bytes` as an array, if there are 64 of them.
pub fn to_64_byte_array(bytes: &Vec<u8>) -> (array: Option<[u8; 64]>)
    ensures
        array is Some <==> bytes@.len() == 64,
        array matches Some(a) ==> a@ == bytes@,
{
    if bytes.len() != 64 {
        return None;
    }
    let mut array = [0u8; 64];
    let mut i: usize = 0;
    while i < 64
        invariant
            i <= 64,
            bytes@.len() == 64,
            forall|k: int| 0 <= k < i ==> array@[k] == bytes@[k],
        decreases 64 - i,
    {
        array[i] = bytes[i];
        i += 1;
    }
    assert(array@ =~= bytes@);
    Some(array)
}

/// `bytes` as an array, if they are the canonical encoding of a scalar.
pub fn scalar_from_valid_bytes(bytes: &Vec<u8>) -> (scalar: Option<[u8; 32]>)
    ensures
        scalar is Some <==> is_canonical(bytes@),
        scalar matches Some(s) ==> s@ == bytes@,
{
    match to_32_byte_array(bytes) {
        None => None,
        Some(array) => {
            if scalar_is_canonical(&array) {
                Some(array)
            } else {
                None
            }
        },
    }
}

/// The bytes of `scalar` as a vector.
pub fn scalar_to_vec(scalar: &[u8; 32]) -> (bytes: Vec<u8>)
    ensures
        bytes@ == scalar@,
{
    let mut bytes: Vec<u8> = Vec::new();
    let mut i: usize = 0;
    while i < 32
        invariant
            i <= 32,
            bytes@.len() == i,
            forall|k: int| 0 <= k < i ==> bytes@[k] == scalar@[k],
        decreases 32 - i,
    {
        bytes.push(scalar[i]);
        i += 1;
    }
    assert(bytes@ =~= scalar@);
    bytes
}

} // verus!
