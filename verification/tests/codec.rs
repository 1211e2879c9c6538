use bn254_codec::bridge::software_add;
use bn254_codec::bridge::software_add_checked;
use bn254_codec::bridge::software_double;
use bn254_codec::bridge::software_double_checked;
use bn254_codec::generator_le;
use bn254_codec::le_to_point;
use bn254_codec::new_g1_point;
use bn254_codec::point_to_le;
use bn254_codec::read_fq;
use bn254_codec::Coordinate;
use bn254_codec::DecodingError;
use substrate_bn::Fq;
use substrate_bn::Group;
use substrate_bn::G1;

/// The field modulus in the wire's little-endian byte order: the smallest
/// out-of-range coordinate value.
fn modulus_le() -> [u8; 32] {
    let mut b = [0u8; 32];
    Fq::modulus().to_big_endian(&mut b).unwrap();
    b.reverse();
    b
}

#[test]
fn test_le_to_point() {
    let b: [u8; 64] = [
        1, 0, 0, 0, 0, 0, 0, 0, 0, 0, 0, 0, 0, 0, 0, 0, 0, 0, 0, 0, 0, 0, 0, 0, 0, 0, 0, 0, 0, 0,
        0, 0, 2, 0, 0, 0, 0, 0, 0, 0, 0, 0, 0, 0, 0, 0, 0, 0, 0, 0, 0, 0, 0, 0, 0, 0, 0, 0, 0, 0,
        0, 0, 0, 0,
    ];
    let p = le_to_point(&b).unwrap();
    assert_eq!(p, G1::one());
}

#[test]
fn test_point_to_le() {
    let p = G1::one();
    let b = point_to_le(&p).unwrap();
    assert_eq!(
        b,
        [
            1, 0, 0, 0, 0, 0, 0, 0, 0, 0, 0, 0, 0, 0, 0, 0, 0, 0, 0, 0, 0, 0, 0, 0, 0, 0, 0, 0, 0, 0,
            0, 0, 2, 0, 0, 0, 0, 0, 0, 0, 0, 0, 0, 0, 0, 0, 0, 0, 0, 0, 0, 0, 0, 0, 0, 0, 0, 0, 0, 0,
            0, 0, 0, 0,
        ]
    );
}

#[test]
fn identity_encodes_to_zero_bytes() {
    let b = point_to_le(&G1::zero()).unwrap();
    assert_eq!(b, [0u8; 64]);
}

#[test]
fn zero_bytes_decode_to_identity() {
    let p = le_to_point(&[0u8; 64]).unwrap();
    assert_eq!(p, G1::zero());
}

#[test]
fn round_trip_points() {
    let g = G1::one();
    let points = [G1::zero(), g, g + g, g + g + g, (g + g) + (g + g + g)];
    for p in points.iter() {
        let b = point_to_le(p).unwrap();
        let q = le_to_point(&b).unwrap();
        assert_eq!(q, *p);
    }
}

#[test]
fn round_trip_bytes() {
    let g = G1::one();
    for p in [g, g + g, g + g + g].iter() {
        let b = point_to_le(p).unwrap();
        let q = le_to_point(&b).unwrap();
        let b2 = point_to_le(&q).unwrap();
        assert_eq!(b2, b);
    }
}

#[test]
fn decode_ignores_trailing_bytes() {
    let mut b = [0u8; 70];
    b[0] = 1;
    b[32] = 2;
    b[64] = 0xff;
    let p = le_to_point(&b).unwrap();
    assert_eq!(p, G1::one());
}

#[test]
fn rejects_out_of_range_x() {
    let mut b = [0u8; 64];
    b[..32].copy_from_slice(&modulus_le());
    b[32] = 2;
    assert_eq!(
        le_to_point(&b).unwrap_err(),
        DecodingError::FieldOutOfRange(Coordinate::X)
    );
}

#[test]
fn rejects_out_of_range_y() {
    let mut b = [0u8; 64];
    b[0] = 1;
    b[32..].copy_from_slice(&modulus_le());
    assert_eq!(
        le_to_point(&b).unwrap_err(),
        DecodingError::FieldOutOfRange(Coordinate::Y)
    );
}

#[test]
fn rejects_off_curve_pair() {
    let mut b = [0u8; 64];
    b[0] = 1;
    b[32] = 1;
    assert_eq!(le_to_point(&b).unwrap_err(), DecodingError::NotOnCurve);
}

#[test]
fn read_fq_parses_zero() {
    let f = read_fq(&[0u8; 32]).unwrap();
    assert_eq!(f, Fq::zero());
}

#[test]
fn read_fq_rejects_modulus() {
    let mut be = [0u8; 32];
    Fq::modulus().to_big_endian(&mut be).unwrap();
    assert!(read_fq(&be).is_err());
}

#[test]
fn new_g1_point_zero_pair_is_identity() {
    let p = new_g1_point(Fq::zero(), Fq::zero()).unwrap();
    assert_eq!(p, G1::zero());
}

#[test]
fn new_g1_point_generator_coordinates() {
    let x = Fq::from_str("1").unwrap();
    let y = Fq::from_str("2").unwrap();
    let p = new_g1_point(x, y).unwrap();
    assert_eq!(p, G1::one());
}

#[test]
fn new_g1_point_rejects_off_curve() {
    let one = Fq::from_str("1").unwrap();
    assert!(new_g1_point(one, one).is_err());
}

#[test]
fn software_add_matches_group_sum() {
    let g = G1::one();
    let pairs = [(g, g), (g, g + g), (g + g + g, g + g), (G1::zero(), g), (g, G1::zero())];
    for (p, q) in pairs.iter() {
        let mut acc = point_to_le(p).unwrap();
        let operand = point_to_le(q).unwrap();
        software_add(&mut acc, &operand);
        let got = le_to_point(&acc).unwrap();
        assert_eq!(got, *p + *q);
    }
}

#[test]
fn software_double_matches_group_sum() {
    let g = G1::one();
    for p in [g, g + g, G1::zero()].iter() {
        let mut acc = point_to_le(p).unwrap();
        software_double(&mut acc);
        let got = le_to_point(&acc).unwrap();
        assert_eq!(got, *p + *p);
    }
}

#[test]
fn software_add_checked_reports_bad_accumulator() {
    let mut acc = [0u8; 64];
    acc[..32].copy_from_slice(&modulus_le());
    let before = acc;
    let operand = point_to_le(&G1::one()).unwrap();
    let r = software_add_checked(&mut acc, &operand);
    assert_eq!(r.unwrap_err(), DecodingError::FieldOutOfRange(Coordinate::X));
    assert_eq!(acc, before);
}

#[test]
fn software_add_checked_reports_bad_operand() {
    let mut acc = point_to_le(&G1::one()).unwrap();
    let before = acc;
    let mut operand = [0u8; 64];
    operand[0] = 1;
    operand[32] = 1;
    let r = software_add_checked(&mut acc, &operand);
    assert_eq!(r.unwrap_err(), DecodingError::NotOnCurve);
    assert_eq!(acc, before);
}

#[test]
fn software_double_checked_accepts_valid_buffer() {
    let g = G1::one();
    let mut acc = point_to_le(&g).unwrap();
    software_double_checked(&mut acc).unwrap();
    assert_eq!(le_to_point(&acc).unwrap(), g + g);
}

#[test]
fn generator_le_is_known_vector() {
    let b = generator_le();
    let mut expected = [0u8; 64];
    expected[0] = 1;
    expected[32] = 2;
    assert_eq!(b, expected);
    assert_eq!(le_to_point(&b).unwrap(), G1::one());
}

#[test]
fn software_add_identity_operand_is_noop() {
    let g = G1::one();
    for p in [g, g + g].iter() {
        let mut acc = point_to_le(p).unwrap();
        let before = acc;
        software_add(&mut acc, &[0u8; 64]);
        assert_eq!(acc, before);
    }
}

#[test]
fn software_add_identity_accumulator_takes_operand() {
    let operand = point_to_le(&(G1::one() + G1::one())).unwrap();
    let mut acc = [0u8; 64];
    software_add(&mut acc, &operand);
    assert_eq!(acc, operand);
}

#[test]
fn software_double_identity_is_noop() {
    let mut acc = [0u8; 64];
    software_double(&mut acc);
    assert_eq!(acc, [0u8; 64]);
}

#[test]
fn read_fq_accepts_modulus_minus_one() {
    let mut be = [0u8; 32];
    Fq::modulus().to_big_endian(&mut be).unwrap();
    be[31] -= 1;
    assert!(read_fq(&be).is_ok());
}
