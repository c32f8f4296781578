use vstd::prelude::*;
use crate::natives::cryptography::ristretto255::{
    scalar_from_valid_bytes,
    scalar_to_vec,
    to_32_byte_array,
    to_64_byte_array,
    GasCost,
    GasParameters,
};
use crate::natives::cryptography::scalar_field::{
    group_order,
    is_canonical,
    le_value,
    scalar_add,
    scalar_from_bytes_mod_order,
    scalar_from_bytes_mod_order_wide,
    scalar_from_sha512,
    scalar_from_u128,
    scalar_from_u64,
    scalar_invert,
    scalar_is_canonical,
    scalar_mul,
    scalar_neg,
    scalar_sub,
    sha512_scalar,
};

verus! {

/// Whether `bytes` are the canonical encoding of a scalar, with the cost of
/// finding out. Bytes of another length than 32 are turned down for the base
/// cost alone.
pub fn native_scalar_is_canonical(gas_params: &GasParameters, bytes: Vec<u8>) -> (result: (
    u64,
    bool,
))
    requires
        bytes@.len() == 32 ==> gas_params.base_cost + gas_params.scalar_is_canonical_cost
            <= u64::MAX,
    ensures
        result.0 == if bytes@.len() == 32 {
            gas_params.base_cost + gas_params.scalar_is_canonical_cost
        } else {
            gas_params.base_cost as int
        },
        result.1 == is_canonical(bytes@),
{
    let mut cost = GasCost(gas_params.base_cost);
    match to_32_byte_array(&bytes) {
        None => (cost.0, false),
        Some(array) => {
            let canonical = scalar_is_canonical(&array);
            cost.add(gas_params.scalar_is_canonical_cost);
            (cost.0, canonical)
        },
    }
}

/// The multiplicative inverse of the scalar that `bytes` encode, with the
/// cost, or `None` if `bytes` are not the canonical encoding of a scalar.
///
/// Zero has no inverse: of the result for zero only the form is known.
pub fn native_scalar_invert(gas_params: &GasParameters, bytes: Vec<u8>) -> (result: Option<
    (u64, Vec<u8>),
>)
    requires
        is_canonical(bytes@) ==> gas_params.base_cost + gas_params.scalar_invert_cost
            <= u64::MAX,
    ensures
        result is Some <==> is_canonical(bytes@),
        result matches Some((cost, inverse)) ==> {
            &&& cost == gas_params.base_cost + gas_params.scalar_invert_cost
            &&& is_canonical(inverse@)
            &&& le_value(bytes@) != 0 ==> (le_value(bytes@) * le_value(inverse@)) % group_order()
                == 1
        },
{
    let mut cost = GasCost(gas_params.base_cost);
    match scalar_from_valid_bytes(&bytes) {
        None => None,
        Some(s) => {
            cost.add(gas_params.scalar_invert_cost);
            let inverse = scalar_invert(&s);
            Some((cost.0, scalar_to_vec(&inverse)))
        },
    }
}

/// What hashing `num_bytes` bytes into a scalar costs: the base cost, the
/// cost of reducing 64 uniform bytes, the cost of one hash and the cost of
/// each byte hashed.
pub open spec fn sha512_cost(gas_params: GasParameters, num_bytes: nat) -> int {
    gas_params.base_cost + gas_params.scalar_from_64_uniform_bytes_cost
        + gas_params.sha512_per_hash_cost + gas_params.sha512_per_byte_cost * num_bytes
}

/// The scalar that SHA-512 derives from `bytes`, with the cost, which grows
/// with the number of bytes.
pub fn native_scalar_from_sha512(gas_params: &GasParameters, bytes: Vec<u8>) -> (result: (
    u64,
    Vec<u8>,
))
    requires
        sha512_cost(*gas_params, bytes@.len()) <= u64::MAX,
    ensures
        result.0 == sha512_cost(*gas_params, bytes@.len()),
        result.1@ == sha512_scalar(bytes@),
        is_canonical(result.1@),
{
    let mut cost = GasCost(gas_params.base_cost);
    assert(gas_params.sha512_per_byte_cost * bytes@.len() >= 0) by (nonlinear_arith);
    cost.add(gas_params.scalar_from_64_uniform_bytes_cost);
    cost.add(gas_params.sha512_per_hash_cost);
    cost.add(gas_params.sha512_per_byte_cost * (bytes.len() as u64));
    let s = scalar_from_sha512(bytes.as_slice());
    (cost.0, scalar_to_vec(&s))
}

/// The product of the scalars that `a` and `b` encode, with the cost, or
/// `None` if either is not the canonical encoding of a scalar.
pub fn native_scalar_mul(gas_params: &GasParameters, a: Vec<u8>, b: Vec<u8>) -> (result: Option<
    (u64, Vec<u8>),
>)
    requires
        is_canonical(a@) && is_canonical(b@) ==> gas_params.base_cost
            + gas_params.scalar_mul_cost <= u64::MAX,
    ensures
        result is Some <==> is_canonical(a@) && is_canonical(b@),
        result matches Some((cost, product)) ==> {
            &&& cost == gas_params.base_cost + gas_params.scalar_mul_cost
            &&& is_canonical(product@)
            &&& le_value(product@) == (le_value(a@) * le_value(b@)) % group_order()
        },
{
    let mut cost = GasCost(gas_params.base_cost);
    let b = match scalar_from_valid_bytes(&b) {
        None => { return None; },
        Some(b) => b,
    };
    let a = match scalar_from_valid_bytes(&a) {
        None => { return None; },
        Some(a) => a,
    };
    cost.add(gas_params.scalar_mul_cost);
    let s = scalar_mul(&a, &b);
    Some((cost.0, scalar_to_vec(&s)))
}

/// The sum of the scalars that `a` and `b` encode, with the cost, or `None`
/// if either is not the canonical encoding of a scalar.
pub fn native_scalar_add(gas_params: &GasParameters, a: Vec<u8>, b: Vec<u8>) -> (result: Option<
    (u64, Vec<u8>),
>)
    requires
        is_canonical(a@) && is_canonical(b@) ==> gas_params.base_cost
            + gas_params.scalar_add_cost <= u64::MAX,
    ensures
        result is Some <==> is_canonical(a@) && is_canonical(b@),
        result matches Some((cost, sum)) ==> {
            &&& cost == gas_params.base_cost + gas_params.scalar_add_cost
            &&& is_canonical(sum@)
            &&& le_value(sum@) == (le_value(a@) + le_value(b@)) % group_order()
        },
{
    let mut cost = GasCost(gas_params.base_cost);
    let b = match scalar_from_valid_bytes(&b) {
        None => { return None; },
        Some(b) => b,
    };
    let a = match scalar_from_valid_bytes(&a) {
        None => { return None; },
        Some(a) => a,
    };
    cost.add(gas_params.scalar_add_cost);
    let s = scalar_add(&a, &b);
    Some((cost.0, scalar_to_vec(&s)))
}

/// The difference of the scalars that `a` and `b` encode, `a` less `b`, with
/// the cost, or `None` if either is not the canonical encoding of a scalar.
pub fn native_scalar_sub(gas_params: &GasParameters, a: Vec<u8>, b: Vec<u8>) -> (result: Option<
    (u64, Vec<u8>),
>)
    requires
        is_canonical(a@) && is_canonical(b@) ==> gas_params.base_cost
            + gas_params.scalar_sub_cost <= u64::MAX,
    ensures
        result is Some <==> is_canonical(a@) && is_canonical(b@),
        result matches Some((cost, difference)) ==> {
            &&& cost == gas_params.base_cost + gas_params.scalar_sub_cost
            &&& is_canonical(difference@)
            &&& le_value(difference@) == (le_value(a@) - le_value(b@)) % (group_order() as int)
        },
{
    let mut cost = GasCost(gas_params.base_cost);
    let b = match scalar_from_valid_bytes(&b) {
        None => { return None; },
        Some(b) => b,
    };
    let a = match scalar_from_valid_bytes(&a) {
        None => { return None; },
        Some(a) => a,
    };
    cost.add(gas_params.scalar_sub_cost);
    let s = scalar_sub(&a, &b);
    Some((cost.0, scalar_to_vec(&s)))
}

/// The negation of the scalar that `a` encodes, with the cost, or `None` if
/// `a` is not the canonical encoding of a scalar.
pub fn native_scalar_neg(gas_params: &GasParameters, a: Vec<u8>) -> (result: Option<
    (u64, Vec<u8>),
>)
    requires
        is_canonical(a@) ==> gas_params.base_cost + gas_params.scalar_neg_cost <= u64::MAX,
    ensures
        result is Some <==> is_canonical(a@),
        result matches Some((cost, negation)) ==> {
            &&& cost == gas_params.base_cost + gas_params.scalar_neg_cost
            &&& is_canonical(negation@)
            &&& le_value(negation@) == (group_order() - le_value(a@)) % (group_order() as int)
        },
{
    let mut cost = GasCost(gas_params.base_cost);
    match scalar_from_valid_bytes(&a) {
        None => None,
        Some(a) => {
            cost.add(gas_params.scalar_neg_cost);
            let s = scalar_neg(&a);
            Some((cost.0, scalar_to_vec(&s)))
        },
    }
}

/// The encoding of `num` as a scalar, with the cost.
pub fn native_scalar_from_u64(gas_params: &GasParameters, num: u64) -> (result: (u64, Vec<u8>))
    requires
        gas_params.base_cost + gas_params.scalar_from_u64_cost <= u64::MAX,
    ensures
        result.0 == gas_params.base_cost + gas_params.scalar_from_u64_cost,
        is_canonical(result.1@),
        le_value(result.1@) == num,
{
    let mut cost = GasCost(gas_params.base_cost);
    cost.add(gas_params.scalar_from_u64_cost);
    let s = scalar_from_u64(num);
    (cost.0, scalar_to_vec(&s))
}

/// The encoding of `num` as a scalar, with the cost.
pub fn native_scalar_from_u128(gas_params: &GasParameters, num: u128) -> (result: (u64, Vec<u8>))
    requires
        gas_params.base_cost + gas_params.scalar_from_u128_cost <= u64::MAX,
    ensures
        result.0 == gas_params.base_cost + gas_params.scalar_from_u128_cost,
        is_canonical(result.1@),
        le_value(result.1@) == num,
{
    let mut cost = GasCost(gas_params.base_cost);
    cost.add(gas_params.scalar_from_u128_cost);
    let s = scalar_from_u128(num);
    (cost.0, scalar_to_vec(&s))
}

/// The scalar that the 256-bit integer in `bytes` reduces to modulo the
/// group order, with the cost, or `None` if `bytes` are not 32 bytes.
pub fn native_scalar_from_256_bits(gas_params: &GasParameters, bytes: Vec<u8>) -> (result: Option<
    (u64, Vec<u8>),
>)
    requires
        bytes@.len() == 32 ==> gas_params.base_cost + gas_params.scalar_from_256_bits_cost
            <= u64::MAX,
    ensures
        result is Some <==> bytes@.len() == 32,
        result matches Some((cost, s)) ==> {
            &&& cost == gas_params.base_cost + gas_params.scalar_from_256_bits_cost
            &&& is_canonical(s@)
            &&& le_value(s@) == le_value(bytes@) % group_order()
        },
{
    let mut cost = GasCost(gas_params.base_cost);
    match to_32_byte_array(&bytes) {
        None => None,
        Some(array) => {
            cost.add(gas_params.scalar_from_256_bits_cost);
            let s = scalar_from_bytes_mod_order(&array);
            Some((cost.0, scalar_to_vec(&s)))
        },
    }
}

/// The scalar that the 512-bit integer in `bytes` reduces to modulo the
/// group order, with the cost, or `None` if `bytes` are not 64 bytes.
pub fn native_scalar_from_64_uniform_bytes(gas_params: &GasParameters, bytes: Vec<u8>) -> (result:
    Option<(u64, Vec<u8>)>)
    requires
        bytes@.len() == 64 ==> gas_params.base_cost
            + gas_params.scalar_from_64_uniform_bytes_cost <= u64::MAX,
    ensures
        result is Some <==> bytes@.len() == 64,
        result matches Some((cost, s)) ==> {
            &&& cost == gas_params.base_cost + gas_params.scalar_from_64_uniform_bytes_cost
            &&& is_canonical(s@)
            &&& le_value(s@) == le_value(bytes@) % group_order()
        },
{
    let mut cost = GasCost(gas_params.base_cost);
    match to_64_byte_array(&bytes) {
        None => None,
        Some(array) => {
            cost.add(gas_params.scalar_from_64_uniform_bytes_cost);
            let s = scalar_from_bytes_mod_order_wide(&array);
            Some((cost.0, scalar_to_vec(&s)))
        },
    }
}

} // verus!
