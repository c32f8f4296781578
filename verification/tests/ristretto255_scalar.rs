use framework_natives::natives::cryptography::ristretto255::{
    scalar_from_valid_bytes, scalar_to_vec, to_32_byte_array, to_64_byte_array, GasCost,
    GasParameters,
};
use framework_natives::natives::cryptography::ristretto255_scalar::{
    native_scalar_add, native_scalar_from_256_bits, native_scalar_from_64_uniform_bytes,
    native_scalar_from_sha512, native_scalar_from_u128, native_scalar_from_u64,
    native_scalar_invert, native_scalar_is_canonical, native_scalar_mul, native_scalar_neg,
    native_scalar_sub,
};

/// The group order, least significant byte first.
const L: [u8; 32] = [
    0xed, 0xd3, 0xf5, 0x5c, 0x1a, 0x63, 0x12, 0x58, 0xd6, 0x9c, 0xf7, 0xa2, 0xde, 0xf9, 0xde,
    0x14, 0x00, 0x00, 0x00, 0x00, 0x00, 0x00, 0x00, 0x00, 0x00, 0x00, 0x00, 0x00, 0x00, 0x00,
    0x00, 0x10,
];

fn gas() -> GasParameters {
    GasParameters {
        base_cost: 1,
        scalar_add_cost: 10,
        scalar_from_256_bits_cost: 20,
        scalar_from_64_uniform_bytes_cost: 30,
        scalar_from_u128_cost: 40,
        scalar_from_u64_cost: 50,
        scalar_invert_cost: 60,
        scalar_is_canonical_cost: 70,
        scalar_mul_cost: 80,
        scalar_neg_cost: 90,
        scalar_sub_cost: 100,
        sha512_per_byte_cost: 3,
        sha512_per_hash_cost: 200,
    }
}

fn small(n: u8) -> Vec<u8> {
    let mut bytes = vec![0u8; 32];
    bytes[0] = n;
    bytes
}

fn order_less(n: u8) -> Vec<u8> {
    let mut bytes = L.to_vec();
    bytes[0] -= n;
    bytes
}

#[test]
fn is_canonical_accepts_below_the_order() {
    assert_eq!(native_scalar_is_canonical(&gas(), small(0)), (71, true));
    assert_eq!(native_scalar_is_canonical(&gas(), small(255)), (71, true));
    assert_eq!(native_scalar_is_canonical(&gas(), order_less(1)), (71, true));
}

#[test]
fn is_canonical_rejects_the_order_and_above() {
    assert_eq!(native_scalar_is_canonical(&gas(), L.to_vec()), (71, false));
    let mut above = L.to_vec();
    above[0] += 2;
    assert_eq!(native_scalar_is_canonical(&gas(), above), (71, false));
    assert_eq!(native_scalar_is_canonical(&gas(), vec![0xff; 32]), (71, false));
    let mut high_bit = small(1);
    high_bit[31] = 0x80;
    assert_eq!(native_scalar_is_canonical(&gas(), high_bit), (71, false));
}

#[test]
fn is_canonical_rejects_other_lengths_for_the_base_cost() {
    assert_eq!(native_scalar_is_canonical(&gas(), vec![]), (1, false));
    assert_eq!(native_scalar_is_canonical(&gas(), vec![0; 31]), (1, false));
    assert_eq!(native_scalar_is_canonical(&gas(), vec![0; 33]), (1, false));
}

#[test]
fn add_small_scalars() {
    assert_eq!(native_scalar_add(&gas(), small(2), small(3)), Some((11, small(5))));
}

#[test]
fn add_wraps_at_the_order() {
    assert_eq!(native_scalar_add(&gas(), order_less(1), small(1)), Some((11, small(0))));
    assert_eq!(native_scalar_add(&gas(), order_less(1), small(3)), Some((11, small(2))));
}

#[test]
fn sub_small_scalars_and_below_zero() {
    assert_eq!(native_scalar_sub(&gas(), small(5), small(3)), Some((101, small(2))));
    assert_eq!(native_scalar_sub(&gas(), small(3), small(5)), Some((101, order_less(2))));
    assert_eq!(native_scalar_sub(&gas(), small(0), small(0)), Some((101, small(0))));
}

#[test]
fn mul_small_scalars_and_by_minus_one() {
    assert_eq!(native_scalar_mul(&gas(), small(6), small(7)), Some((81, small(42))));
    assert_eq!(native_scalar_mul(&gas(), order_less(1), small(2)), Some((81, order_less(2))));
    assert_eq!(native_scalar_mul(&gas(), small(0), small(9)), Some((81, small(0))));
}

#[test]
fn neg_of_scalars() {
    assert_eq!(native_scalar_neg(&gas(), small(1)), Some((91, order_less(1))));
    assert_eq!(native_scalar_neg(&gas(), order_less(4)), Some((91, small(4))));
    assert_eq!(native_scalar_neg(&gas(), small(0)), Some((91, small(0))));
}

#[test]
fn invert_gives_the_inverse() {
    let (cost, inverse) = native_scalar_invert(&gas(), small(2)).unwrap();
    assert_eq!(cost, 61);
    assert_ne!(inverse, small(2));
    assert_eq!(native_scalar_mul(&gas(), small(2), inverse), Some((81, small(1))));
    assert_eq!(native_scalar_invert(&gas(), small(1)), Some((61, small(1))));
    assert_eq!(native_scalar_invert(&gas(), order_less(1)), Some((61, order_less(1))));
}

#[test]
fn invert_known_value() {
    let x = vec![
        0x4e, 0x5a, 0xb4, 0x34, 0x5d, 0x47, 0x08, 0x84, 0x59, 0x13, 0xb4, 0x64, 0x1b, 0xc2,
        0x7d, 0x52, 0x52, 0xa5, 0x85, 0x10, 0x1b, 0xcc, 0x42, 0x44, 0xd4, 0x49, 0xf4, 0xa8,
        0x79, 0xd9, 0xf2, 0x04,
    ];
    let x_inverse = vec![
        0x1c, 0xdc, 0x17, 0xfc, 0xe0, 0xe9, 0xa5, 0xbb, 0xd9, 0x24, 0x7e, 0x56, 0xbb, 0x01,
        0x63, 0x47, 0xbb, 0xba, 0x31, 0xed, 0xd5, 0xa9, 0xbb, 0x96, 0xd5, 0x0b, 0xcd, 0x7a,
        0x3f, 0x96, 0x2a, 0x0f,
    ];
    assert_eq!(native_scalar_invert(&gas(), x), Some((61, x_inverse)));
}

#[test]
fn scalar_arguments_that_are_not_canonical_are_turned_down() {
    assert_eq!(native_scalar_add(&gas(), L.to_vec(), small(1)), None);
    assert_eq!(native_scalar_add(&gas(), small(1), L.to_vec()), None);
    assert_eq!(native_scalar_add(&gas(), vec![1; 31], small(1)), None);
    assert_eq!(native_scalar_sub(&gas(), small(1), vec![0xff; 32]), None);
    assert_eq!(native_scalar_sub(&gas(), vec![], small(1)), None);
    assert_eq!(native_scalar_mul(&gas(), small(1), vec![0; 33]), None);
    assert_eq!(native_scalar_mul(&gas(), L.to_vec(), L.to_vec()), None);
    assert_eq!(native_scalar_neg(&gas(), L.to_vec()), None);
    assert_eq!(native_scalar_neg(&gas(), vec![0; 64]), None);
    assert_eq!(native_scalar_invert(&gas(), L.to_vec()), None);
    assert_eq!(native_scalar_invert(&gas(), vec![2]), None);
}

#[test]
fn from_u64_is_little_endian() {
    let mut expected = vec![0u8; 32];
    expected[0] = 0x08;
    expected[1] = 0x07;
    expected[7] = 0x01;
    assert_eq!(native_scalar_from_u64(&gas(), 0x0100_0000_0000_0708), (51, expected));
    assert_eq!(native_scalar_from_u64(&gas(), 0), (51, small(0)));
    let mut max = vec![0u8; 32];
    for byte in max.iter_mut().take(8) {
        *byte = 0xff;
    }
    assert_eq!(native_scalar_from_u64(&gas(), u64::MAX), (51, max));
}

#[test]
fn from_u128_is_little_endian() {
    let mut expected = vec![0u8; 32];
    expected[0] = 0x02;
    expected[15] = 0x01;
    assert_eq!(native_scalar_from_u128(&gas(), (1u128 << 120) + 2), (41, expected));
    let mut max = vec![0u8; 32];
    for byte in max.iter_mut().take(16) {
        *byte = 0xff;
    }
    assert_eq!(native_scalar_from_u128(&gas(), u128::MAX), (41, max));
}

#[test]
fn from_256_bits_reduces_modulo_the_order() {
    assert_eq!(native_scalar_from_256_bits(&gas(), small(9)), Some((21, small(9))));
    assert_eq!(native_scalar_from_256_bits(&gas(), L.to_vec()), Some((21, small(0))));
    let mut above = L.to_vec();
    above[0] += 2;
    assert_eq!(native_scalar_from_256_bits(&gas(), above), Some((21, small(2))));
    assert_eq!(native_scalar_from_256_bits(&gas(), vec![0; 31]), None);
    assert_eq!(native_scalar_from_256_bits(&gas(), vec![0; 64]), None);
}

#[test]
fn from_256_bits_reads_the_top_bit() {
    // The residue of 2^255 is twice the residue of 2^254, modulo the order.
    let mut top = vec![0u8; 32];
    top[31] = 0x80;
    let (_, residue) = native_scalar_from_256_bits(&gas(), top).unwrap();
    let mut half = vec![0u8; 32];
    half[31] = 0x40;
    let (_, half_residue) = native_scalar_from_256_bits(&gas(), half).unwrap();
    assert_eq!(
        native_scalar_add(&gas(), half_residue.clone(), half_residue),
        Some((11, residue))
    );
}

#[test]
fn from_64_uniform_bytes_reduces_modulo_the_order() {
    let mut wide = vec![0u8; 64];
    wide[0] = 9;
    assert_eq!(native_scalar_from_64_uniform_bytes(&gas(), wide), Some((31, small(9))));
    let mut order = L.to_vec();
    order.resize(64, 0);
    assert_eq!(native_scalar_from_64_uniform_bytes(&gas(), order), Some((31, small(0))));
    assert_eq!(native_scalar_from_64_uniform_bytes(&gas(), vec![0; 32]), None);
    assert_eq!(native_scalar_from_64_uniform_bytes(&gas(), vec![0; 65]), None);
}

#[test]
fn from_64_uniform_bytes_reads_the_upper_half() {
    // 2^256 as 64 bytes is twice 2^255 as 32 bytes.
    let mut wide = vec![0u8; 64];
    wide[32] = 1;
    let (_, residue) = native_scalar_from_64_uniform_bytes(&gas(), wide).unwrap();
    let mut top = vec![0u8; 32];
    top[31] = 0x80;
    let (_, top_residue) = native_scalar_from_256_bits(&gas(), top).unwrap();
    assert_eq!(
        native_scalar_add(&gas(), top_residue.clone(), top_residue),
        Some((11, residue))
    );
}

#[test]
fn from_sha512_known_value() {
    let message = "To really appreciate architecture, you may even need to commit a murder.\
While the programs used for The Manhattan Transcripts are of the most extreme\
nature, they also parallel the most common formula plot: the archetype of\
murder. Other phantasms were occasionally used to underline the fact that\
perhaps all architecture, rather than being about functional standards, is\
about love and death.";
    let expected = vec![
        21, 88, 208, 252, 63, 122, 210, 152, 154, 38, 15, 23, 16, 167, 80, 150, 192, 221, 77,
        226, 62, 25, 224, 148, 239, 48, 176, 10, 185, 69, 168, 11,
    ];
    let bytes = message.as_bytes().to_vec();
    let cost = 1 + 30 + 200 + 3 * bytes.len() as u64;
    assert_eq!(native_scalar_from_sha512(&gas(), bytes), (cost, expected));
}

#[test]
fn from_sha512_cost_grows_with_the_input() {
    let (empty_cost, empty) = native_scalar_from_sha512(&gas(), vec![]);
    assert_eq!(empty_cost, 231);
    let (cost, one) = native_scalar_from_sha512(&gas(), vec![0]);
    assert_eq!(cost, 234);
    assert_ne!(empty, one);
    assert_eq!(one.len(), 32);
    assert_eq!(native_scalar_is_canonical(&gas(), one), (71, true));
    assert_eq!(native_scalar_from_sha512(&gas(), vec![7; 100]).0, 531);
}

#[test]
fn byte_helpers() {
    assert_eq!(to_32_byte_array(&L.to_vec()), Some(L));
    assert_eq!(to_32_byte_array(&vec![0; 31]), None);
    assert_eq!(to_64_byte_array(&vec![5; 64]), Some([5u8; 64]));
    assert_eq!(to_64_byte_array(&vec![5; 32]), None);
    assert_eq!(scalar_from_valid_bytes(&small(3)).map(|s| s.to_vec()), Some(small(3)));
    assert_eq!(scalar_from_valid_bytes(&L.to_vec()), None);
    assert_eq!(scalar_from_valid_bytes(&vec![1, 2, 3]), None);
    assert_eq!(scalar_to_vec(&L), L.to_vec());
}

#[test]
fn gas_cost_adds_up() {
    let mut cost = GasCost(5);
    cost.add(0);
    cost.add(37);
    assert_eq!(cost.0, 42);
    cost.add(u64::MAX - 42);
    assert_eq!(cost.0, u64::MAX);
}
