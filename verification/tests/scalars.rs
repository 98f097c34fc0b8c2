use curve25519_dalek::scalar::Scalar as DalekScalar;
use fair_dealing::Scalar;
use rand::rngs::StdRng;
use rand::SeedableRng;
use sha2::Sha512;

/// The group order, least significant byte first.
const ORDER: [u8; 32] = [
    0xed, 0xd3, 0xf5, 0x5c, 0x1a, 0x63, 0x12, 0x58, 0xd6, 0x9c, 0xf7, 0xa2, 0xde, 0xf9, 0xde, 0x14,
    0x00, 0x00, 0x00, 0x00, 0x00, 0x00, 0x00, 0x00, 0x00, 0x00, 0x00, 0x00, 0x00, 0x00, 0x00, 0x10,
];

fn order_minus_one() -> Scalar {
    let mut bytes = ORDER;
    bytes[0] = 0xec;
    Scalar::from_canonical_bytes(bytes).unwrap()
}

fn small(n: u8) -> [u8; 32] {
    let mut bytes = [0u8; 32];
    bytes[0] = n;
    bytes
}

#[test]
fn zero_is_thirty_two_zero_bytes() {
    assert_eq!(Scalar::zero().to_bytes(), [0u8; 32]);
}

#[test]
fn one_is_a_one_then_zero_bytes() {
    assert_eq!(Scalar::one().to_bytes(), small(1));
}

#[test]
fn from_u64_is_little_endian() {
    let s = Scalar::from_u64(0x0102_0304_0506_0708);
    let mut expected = [0u8; 32];
    expected[..8].copy_from_slice(&[8, 7, 6, 5, 4, 3, 2, 1]);
    assert_eq!(s.to_bytes(), expected);
    assert_eq!(Scalar::from_u64(0), Scalar::zero());
    assert_eq!(Scalar::from_u64(1), Scalar::one());
}

#[test]
fn from_u64_agrees_with_the_group_library() {
    for x in [0u64, 1, 255, 256, 65_535, 1 << 40, u64::MAX] {
        assert_eq!(Scalar::from_u64(x).to_bytes(), DalekScalar::from(x).to_bytes());
    }
}

#[test]
fn add_of_small_numbers() {
    let a = Scalar::from_u64(40);
    let b = Scalar::from_u64(2);
    assert_eq!(a.add(&b), Scalar::from_u64(42));
    assert_ne!(a.add(&b), a);
}

#[test]
fn add_wraps_at_the_group_order() {
    let top = order_minus_one();
    assert_eq!(top.add(&Scalar::one()), Scalar::zero());
    assert_eq!(top.add(&Scalar::from_u64(5)), Scalar::from_u64(4));
}

#[test]
fn sub_of_small_numbers() {
    let a = Scalar::from_u64(40);
    let b = Scalar::from_u64(2);
    assert_eq!(a.sub(&b), Scalar::from_u64(38));
}

#[test]
fn sub_below_zero_wraps() {
    let r = Scalar::zero().sub(&Scalar::one());
    assert_eq!(r, order_minus_one());
    let mut expected = ORDER;
    expected[0] = 0xec;
    assert_eq!(r.to_bytes(), expected);
}

#[test]
fn mul_of_small_numbers() {
    let six = Scalar::from_u64(6);
    let seven = Scalar::from_u64(7);
    assert_eq!(six.mul(&seven), Scalar::from_u64(42));
    assert_eq!(six.mul(&Scalar::zero()), Scalar::zero());
    assert_eq!(six.mul(&Scalar::one()), six);
}

#[test]
fn mul_reduces_modulo_the_group_order() {
    // (-1) * (-1) = 1
    let top = order_minus_one();
    assert_eq!(top.mul(&top), Scalar::one());
    // (-1) * 2 = -2
    assert_eq!(top.mul(&Scalar::from_u64(2)), Scalar::zero().sub(&Scalar::from_u64(2)));
}

#[test]
fn from_canonical_bytes_accepts_numbers_below_the_order() {
    assert_eq!(Scalar::from_canonical_bytes([0u8; 32]), Some(Scalar::zero()));
    assert_eq!(Scalar::from_canonical_bytes(small(9)), Some(Scalar::from_u64(9)));
    let mut bytes = ORDER;
    bytes[0] = 0xec;
    assert!(Scalar::from_canonical_bytes(bytes).is_some());
}

#[test]
fn from_canonical_bytes_rejects_the_order_and_above() {
    assert_eq!(Scalar::from_canonical_bytes(ORDER), None);
    let mut above = ORDER;
    above[0] = 0xef;
    assert_eq!(Scalar::from_canonical_bytes(above), None);
    assert_eq!(Scalar::from_canonical_bytes([0xff; 32]), None);
    let mut high_bit = [0u8; 32];
    high_bit[31] = 0x80;
    assert_eq!(Scalar::from_canonical_bytes(high_bit), None);
}

#[test]
fn to_bytes_gives_back_what_was_read() {
    let mut bytes = [0u8; 32];
    for (i, b) in bytes.iter_mut().enumerate() {
        *b = i as u8;
    }
    bytes[31] = 0x0f;
    let s = Scalar::from_canonical_bytes(bytes).unwrap();
    assert_eq!(s.to_bytes(), bytes);
}

#[test]
fn scalar_hash_of_a_known_text() {
    let text = "To really appreciate architecture, you may even need to commit a murder.\
                While the programs used for The Manhattan Transcripts are of the most extreme\
                nature, they also parallel the most common formula plot: the archetype of\
                murder. Other phantasms were occasionally used to underline the fact that\
                perhaps all architecture, rather than being about functional standards, is\
                about love and death.";
    let s = Scalar::hash_from_bytes(text.as_bytes());
    assert_eq!(
        s.to_bytes(),
        [
            21, 88, 208, 252, 63, 122, 210, 152, 154, 38, 15, 23, 16, 167, 80, 150, 192, 221, 77,
            226, 62, 25, 224, 148, 239, 48, 176, 10, 185, 69, 168, 11,
        ]
    );
}

#[test]
fn scalar_hash_agrees_with_the_group_library() {
    for input in [&b""[..], &b"a"[..], &b"skull and roses"[..], &[0u8; 32][..]] {
        let expected = DalekScalar::hash_from_bytes::<Sha512>(input);
        assert_eq!(Scalar::hash_from_bytes(input).to_bytes(), expected.to_bytes());
    }
    assert_ne!(Scalar::hash_from_bytes(b"a"), Scalar::hash_from_bytes(b"b"));
}

#[test]
fn hash_of_thirty_two_bytes_is_not_those_bytes() {
    let input = small(3);
    assert_ne!(Scalar::hash_from_bytes(&input).to_bytes(), input);
}

#[test]
fn random_draws_what_the_generator_gives() {
    let mut ours = StdRng::seed_from_u64(17);
    let mut theirs = StdRng::seed_from_u64(17);
    for _ in 0..4 {
        let s = Scalar::random(&mut ours);
        let expected = DalekScalar::random(&mut theirs);
        assert_eq!(s.to_bytes(), expected.to_bytes());
        assert!(Scalar::from_canonical_bytes(s.to_bytes()).is_some());
    }
}

#[test]
fn random_scalars_differ_from_draw_to_draw() {
    let mut rng = StdRng::seed_from_u64(3);
    let a = Scalar::random(&mut rng);
    let b = Scalar::random(&mut rng);
    assert_ne!(a, b);
}

#[test]
fn scalars_are_equal_exactly_when_their_numbers_are() {
    assert_eq!(Scalar::from_u64(12), Scalar::from_u64(12));
    assert_ne!(Scalar::from_u64(12), Scalar::from_u64(13));
    assert!(Scalar::from_u64(256) != Scalar::from_u64(1));
}
