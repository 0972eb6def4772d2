use anon_aadhaar::field::{FieldElement, MODULUS_0, MODULUS_1, MODULUS_2, MODULUS_3};

const MODULUS: &str =
    "21888242871839275222246405745257275088548364400416034343698204186575808495617";
const MODULUS_MINUS_ONE: &str =
    "21888242871839275222246405745257275088548364400416034343698204186575808495616";
const MODULUS_PLUS_ONE: &str =
    "21888242871839275222246405745257275088548364400416034343698204186575808495618";

#[test]
fn zero_and_one_parse() {
    assert_eq!(FieldElement::from_decimal("0"), Some(FieldElement::zero()));
    assert_eq!(FieldElement::from_decimal("0").unwrap().limbs(), (0, 0, 0, 0));
    assert_eq!(FieldElement::from_decimal("1").unwrap().limbs(), (1, 0, 0, 0));
}

#[test]
fn small_values_match_from_u64() {
    assert_eq!(FieldElement::from_decimal("12345"), Some(FieldElement::from_u64(12345)));
    assert_eq!(
        FieldElement::from_decimal("18446744073709551615"),
        Some(FieldElement::from_u64(u64::MAX))
    );
    assert_eq!(FieldElement::from_u64(7).limbs(), (7, 0, 0, 0));
}

#[test]
fn carries_cross_limbs() {
    assert_eq!(
        FieldElement::from_decimal("18446744073709551616").unwrap().limbs(),
        (0, 1, 0, 0)
    );
    assert_eq!(
        FieldElement::from_decimal("340282366920938463463374607431768211461").unwrap().limbs(),
        (5, 0, 1, 0)
    );
}

#[test]
fn largest_element_is_modulus_minus_one() {
    let e = FieldElement::from_decimal(MODULUS_MINUS_ONE).unwrap();
    assert_eq!(e.limbs(), (MODULUS_0 - 1, MODULUS_1, MODULUS_2, MODULUS_3));
}

#[test]
fn modulus_and_above_are_refused() {
    assert_eq!(FieldElement::from_decimal(MODULUS), None);
    assert_eq!(FieldElement::from_decimal(MODULUS_PLUS_ONE), None);
    let mut huge = String::from(MODULUS);
    huge.push('0');
    assert_eq!(FieldElement::from_decimal(&huge), None);
    let long = "9".repeat(200);
    assert_eq!(FieldElement::from_decimal(&long), None);
}

#[test]
fn leading_zeros_keep_the_value() {
    assert_eq!(FieldElement::from_decimal("007"), Some(FieldElement::from_u64(7)));
    let mut padded = "0".repeat(100);
    padded.push_str(MODULUS_MINUS_ONE);
    assert_eq!(
        FieldElement::from_decimal(&padded),
        FieldElement::from_decimal(MODULUS_MINUS_ONE)
    );
    let mut padded_modulus = "0".repeat(3);
    padded_modulus.push_str(MODULUS);
    assert_eq!(FieldElement::from_decimal(&padded_modulus), None);
}

#[test]
fn text_that_is_no_decimal_is_refused() {
    assert_eq!(FieldElement::from_decimal(""), None);
    assert_eq!(FieldElement::from_decimal("12a"), None);
    assert_eq!(FieldElement::from_decimal("-1"), None);
    assert_eq!(FieldElement::from_decimal("+1"), None);
    assert_eq!(FieldElement::from_decimal(" 1"), None);
    assert_eq!(FieldElement::from_decimal("1 "), None);
    assert_eq!(FieldElement::from_decimal("0x10"), None);
    assert_eq!(FieldElement::from_decimal("1.0"), None);
    assert_eq!(FieldElement::from_decimal("/"), None);
    assert_eq!(FieldElement::from_decimal(":"), None);
    assert_eq!(FieldElement::from_decimal("\u{ff11}"), None);
    assert_eq!(FieldElement::from_decimal("1\u{0661}"), None);
}
