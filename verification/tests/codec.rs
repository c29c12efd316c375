use sunscreen_compiler::encoding::significant_bits;
use sunscreen_compiler::integer::{Signed as WideSigned, Unsigned};
use sunscreen_compiler::bfv::Signed;
use sunscreen_compiler::params::{Params, SchemeType, SecurityLevel};
use sunscreen_compiler::plaintext::{Error, Plaintext, Polynomial};

fn test_params() -> Params {
    Params {
        lattice_dimension: 4096,
        coeff_modulus: vec![0xffffee001, 0xffffc4001, 0x1ffffe0001],
        plain_modulus: 65537,
        scheme_type: SchemeType::Bfv,
        security_level: SecurityLevel::Tc128,
    }
}

#[test]
fn can_convert_u64_to_unsigned() {
    let foo: Unsigned = 64u64.into();

    assert_eq!(foo.val, 64);
}

#[test]
fn can_convert_unsigned_to_u64() {
    let foo = Unsigned { val: 64 };
    let converted: u64 = foo.into();

    assert_eq!(converted, 64u64);
}

#[test]
fn unsigned_round_trip() {
    let params = test_params();
    for v in [0u64, 1, 2, 5, 64, 1023, u64::MAX - 1, u64::MAX] {
        let u = Unsigned { val: v };
        let pt = u.try_into_plaintext(&params).unwrap();
        let back = Unsigned::try_from_plaintext(&pt, &params).unwrap();
        assert_eq!(back.val, v);
    }
}

#[test]
fn unsigned_encoding_is_full_width_bits() {
    let params = test_params();
    let pt = Unsigned { val: 5 }.try_into_plaintext(&params).unwrap();
    assert_eq!(pt.polynomials.len(), 1);
    let poly = &pt.polynomials[0];
    assert_eq!(poly.coefficients.len(), 64);
    assert_eq!(poly.coefficients[0], 1);
    assert_eq!(poly.coefficients[1], 0);
    assert_eq!(poly.coefficients[2], 1);
    for i in 3..64 {
        assert_eq!(poly.coefficients[i], 0);
    }
}

#[test]
fn unsigned_rejects_wrong_polynomial_count() {
    let params = test_params();
    let empty = Plaintext { polynomials: vec![] };
    assert_eq!(
        Unsigned::try_from_plaintext(&empty, &params),
        Err(Error::WrongCiphertextCount)
    );
    let two = Plaintext {
        polynomials: vec![Polynomial::new(), Polynomial::new()],
    };
    assert_eq!(
        Unsigned::try_from_plaintext(&two, &params),
        Err(Error::WrongCiphertextCount)
    );
}

#[test]
fn wide_signed_round_trip() {
    let params = test_params();
    for v in [0i64, 1, -1, 5, -5, 1024, -1024, i64::MAX, i64::MIN + 1] {
        let s = WideSigned { val: v };
        let pt = s.try_into_plaintext(&params).unwrap();
        let back = WideSigned::try_from_plaintext(&pt, &params).unwrap();
        assert_eq!(back.val, v);
    }
}

#[test]
fn compact_signed_round_trip() {
    let params = test_params();
    for v in [0i64, 1, -1, 5, -5, 64, -64, 65536, -65536, i64::MAX, i64::MIN + 1] {
        let s = Signed::from(v);
        let pt = s.try_into_plaintext(&params).unwrap();
        let back = Signed::try_from_plaintext(&pt, &params).unwrap();
        let result: i64 = back.into();
        assert_eq!(result, v);
    }
}

#[test]
fn encode_minus_five_decodes_to_minus_five() {
    let params = test_params();
    let pt = Signed::from(-5).try_into_plaintext(&params).unwrap();
    let back = Signed::try_from_plaintext(&pt, &params).unwrap();
    let result: i64 = back.into();
    assert_eq!(result, -5);
}

#[test]
fn encode_zero_is_empty_polynomial() {
    let params = test_params();
    let pt = Signed::from(0).try_into_plaintext(&params).unwrap();
    assert_eq!(pt.polynomials.len(), 1);
    assert_eq!(pt.polynomials[0].coefficients.len(), 0);
    let back = Signed::try_from_plaintext(&pt, &params).unwrap();
    let result: i64 = back.into();
    assert_eq!(result, 0);
}

#[test]
fn compact_signed_encoding_is_minimal_and_substituted() {
    let params = test_params();
    // 5 = 0b101: three significant bits, stored verbatim for a positive
    // value.
    let pos = Signed::from(5).try_into_plaintext(&params).unwrap();
    assert_eq!(pos.polynomials[0].coefficients, vec![1, 0, 1]);
    // For -5 each set bit becomes its additive inverse modulo the plaintext
    // modulus; unset bits stay zero.
    let neg = Signed::from(-5).try_into_plaintext(&params).unwrap();
    assert_eq!(neg.polynomials[0].coefficients, vec![65536, 0, 65536]);
}

#[test]
fn sign_convention_matches_bit_positions() {
    let params = test_params();
    for v in [1i64, 2, 5, 100, 65535, i64::MAX] {
        let pos = Signed::from(v).try_into_plaintext(&params).unwrap();
        let neg = Signed::from(-v).try_into_plaintext(&params).unwrap();
        let p = &pos.polynomials[0].coefficients;
        let n = &neg.polynomials[0].coefficients;
        assert_eq!(p.len(), n.len());
        for i in 0..p.len() {
            assert_eq!(p[i] == 0, n[i] == 0);
            if p[i] != 0 {
                assert_eq!(p[i], 1);
                assert_eq!(n[i], params.plain_modulus - 1);
            }
        }
    }
}

#[test]
fn signed_rejects_wrong_polynomial_count() {
    let params = test_params();
    let empty = Plaintext { polynomials: vec![] };
    assert_eq!(
        Signed::try_from_plaintext(&empty, &params),
        Err(Error::WrongCiphertextCount)
    );
    assert_eq!(
        WideSigned::try_from_plaintext(&empty, &params),
        Err(Error::WrongCiphertextCount)
    );
}

#[test]
fn significant_bits_exact_values() {
    assert_eq!(significant_bits(0), 0);
    assert_eq!(significant_bits(1), 1);
    assert_eq!(significant_bits(2), 2);
    assert_eq!(significant_bits(3), 2);
    assert_eq!(significant_bits(5), 3);
    assert_eq!(significant_bits(255), 8);
    assert_eq!(significant_bits(256), 9);
    assert_eq!(significant_bits(u64::MAX), 64);
}

#[test]
fn round_trip_with_small_plain_modulus() {
    // The smallest plaintext modulus the signed convention round-trips
    // under is 3: the stored bit 1 stays below the cutoff and its additive
    // inverse stays at or above it.
    let mut params = test_params();
    params.plain_modulus = 3;
    for v in [0i64, 1, -1, 2, -2, 7, -7] {
        let pt = Signed::from(v).try_into_plaintext(&params).unwrap();
        let back = Signed::try_from_plaintext(&pt, &params).unwrap();
        let result: i64 = back.into();
        assert_eq!(result, v);
    }
}
