//! Scalars of the ristretto255 group as byte strings, and the arithmetic on
//! them that curve25519-dalek provides.
//!
//! A scalar is an integer modulo the group order. Its canonical encoding is
//! the 32 bytes, least significant first, of its representative below the
//! group order. The functions of this module work on such encodings; their
//! contracts are taken from curve25519-dalek's documentation and source and
//! are not proved here.

use vstd::prelude::*;
use curve25519_dalek::scalar::Scalar;
use sha2::Sha512;

verus! {

/// The integer that `bytes` encode, least significant byte first.
pub open spec fn le_value(bytes: Seq<u8>) -> nat
    decreases bytes.len(),
{
    if bytes.len() == 0 {
        0
    } else {
        bytes[0] as nat + 256 * le_value(bytes.drop_first())
    }
}

/// The order of the ristretto255 group, a prime: two to the power 252 plus
/// 27742317777372353535851937790883648493.
pub open spec fn group_order() -> nat {
    7237005577332262213973186563042994240857116359379907606001950938285454250989nat
}

/// Whether `bytes` are the canonical encoding of a scalar: 32 bytes whose
/// value is below the group order.
pub open spec fn is_canonical(bytes: Seq<u8>) -> bool {
    bytes.len() == 32 && le_value(bytes) < group_order()
}

/// Byte strings of one length that encode the same integer are the same
/// string. So a length and a value, as the contracts below give them, leave
/// room for one result only.
pub proof fn lemma_le_value_is_injective(a: Seq<u8>, b: Seq<u8>)
    requires
        a.len() == b.len(),
        le_value(a) == le_value(b),
    ensures
        a == b,
    decreases a.len(),
{
    if a.len() > 0 {
        lemma_le_value_is_injective(a.drop_first(), b.drop_first());
        assert(a =~= seq![a[0]] + a.drop_first());
        assert(b =~= seq![b[0]] + b.drop_first());
    } else {
        assert(a =~= b);
    }
}

/// The canonical encoding of the scalar that `Scalar::hash_from_bytes`
/// derives from `input` with SHA-512.
pub uninterp spec fn sha512_scalar(input: Seq<u8>) -> Seq<u8>;

/// `Scalar::from_canonical_bytes`, of which only success or failure is kept:
/// it succeeds exactly on the encodings whose value is below the group order.
#[verifier::external_body]
pub(crate) fn scalar_is_canonical(bytes: &[u8; 32]) -> (canonical: bool)
    ensures
        canonical == is_canonical(bytes@),
{
    Scalar::from_canonical_bytes(*bytes).is_some()
}

/// `Scalar::invert` on a canonical encoding. The result is canonical, and for
/// a scalar other than zero it is the multiplicative inverse: the product of
/// the two is one modulo the group order.
#[verifier::external_body]
pub(crate) fn scalar_invert(s: &[u8; 32]) -> (inverse: [u8; 32])
    requires
        is_canonical(s@),
    ensures
        is_canonical(inverse@),
        le_value(s@) != 0 ==> (le_value(s@) * le_value(inverse@)) % group_order() == 1,
{
    Scalar::from_bits(*s).invert().to_bytes()
}

/// `Scalar::hash_from_bytes` with SHA-512: the digest of `input`, read as a
/// 512-bit integer and reduced modulo the group order. The result is
/// canonical and depends on `input` alone.
#[verifier::external_body]
pub(crate) fn scalar_from_sha512(input: &[u8]) -> (s: [u8; 32])
    ensures
        s@ == sha512_scalar(input@),
        is_canonical(s@),
{
    Scalar::hash_from_bytes::<Sha512>(input).to_bytes()
}

/// The product of two scalars, `Mul::mul` of `Scalar`, on canonical
/// encodings: the canonical encoding of the product modulo the group order.
#[verifier::external_body]
pub(crate) fn scalar_mul(a: &[u8; 32], b: &[u8; 32]) -> (product: [u8; 32])
    requires
        is_canonical(a@),
        is_canonical(b@),
    ensures
        product@.len() == 32,
        le_value(product@) == (le_value(a@) * le_value(b@)) % group_order(),
{
    (Scalar::from_bits(*a) * Scalar::from_bits(*b)).to_bytes()
}

/// The sum of two scalars, `Add::add` of `Scalar`, on canonical encodings:
/// the canonical encoding of the sum modulo the group order.
#[verifier::external_body]
pub(crate) fn scalar_add(a: &[u8; 32], b: &[u8; 32]) -> (sum: [u8; 32])
    requires
        is_canonical(a@),
        is_canonical(b@),
    ensures
        sum@.len() == 32,
        le_value(sum@) == (le_value(a@) + le_value(b@)) % group_order(),
{
    (Scalar::from_bits(*a) + Scalar::from_bits(*b)).to_bytes()
}

/// The difference of two scalars, `Sub::sub` of `Scalar`, on canonical
/// encodings: the canonical encoding of the difference modulo the group
/// order, which is never negative.
#[verifier::external_body]
pub(crate) fn scalar_sub(a: &[u8; 32], b: &[u8; 32]) -> (difference: [u8; 32])
    requires
        is_canonical(a@),
        is_canonical(b@),
    ensures
        difference@.len() == 32,
        le_value(difference@) == (le_value(a@) - le_value(b@)) % (group_order() as int),
{
    (Scalar::from_bits(*a) - Scalar::from_bits(*b)).to_bytes()
}

/// The negation of a scalar, `Neg::neg` of `Scalar`, on a canonical
/// encoding: the canonical encoding of the group order less the scalar,
/// modulo the group order.
#[verifier::external_body]
pub(crate) fn scalar_neg(a: &[u8; 32]) -> (negation: [u8; 32])
    requires
        is_canonical(a@),
    ensures
        negation@.len() == 32,
        le_value(negation@) == (group_order() - le_value(a@)) % (group_order() as int),
{
    (-Scalar::from_bits(*a)).to_bytes()
}

/// `Scalar::from` of a `u64`: the 32 bytes that encode `num`.
#[verifier::external_body]
pub(crate) fn scalar_from_u64(num: u64) -> (s: [u8; 32])
    ensures
        s@.len() == 32,
        le_value(s@) == num,
{
    Scalar::from(num).to_bytes()
}

/// `Scalar::from` of a `u128`: the 32 bytes that encode `num`.
#[verifier::external_body]
pub(crate) fn scalar_from_u128(num: u128) -> (s: [u8; 32])
    ensures
        s@.len() == 32,
        le_value(s@) == num,
{
    Scalar::from(num).to_bytes()
}

/// `Scalar::from_bytes_mod_order`: the canonical encoding of the 256-bit
/// integer that `bytes` encode, reduced modulo the group order.
#[verifier::external_body]
pub(crate) fn scalar_from_bytes_mod_order(bytes: &[u8; 32]) -> (s: [u8; 32])
    ensures
        s@.len() == 32,
        le_value(s@) == le_value(bytes@) % group_order(),
{
    Scalar::from_bytes_mod_order(*bytes).to_bytes()
}

/// `Scalar::from_bytes_mod_order_wide`: the canonical encoding of the
/// 512-bit integer that `bytes` encode, reduced modulo the group order.
#[verifier::external_body]
pub(crate) fn scalar_from_bytes_mod_order_wide(bytes: &[u8; 64]) -> (s: [u8; 32])
    ensures
        s@.len() == 32,
        le_value(s@) == le_value(bytes@) % group_order(),
{
    Scalar::from_bytes_mod_order_wide(bytes).to_bytes()
}

} // verus!
