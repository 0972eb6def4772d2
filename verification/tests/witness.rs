use anon_aadhaar::field::FieldElement;
use anon_aadhaar::schema::WitnessSchema;
use anon_aadhaar::witness::{encode, encode_exact, EncodingError};

const MODULUS: &str =
    "21888242871839275222246405745257275088548364400416034343698204186575808495617";

fn strings(items: &[&str]) -> Vec<String> {
    items.iter().map(|s| s.to_string()).collect()
}

#[test]
fn values_keep_their_slots() {
    let inputs = strings(&["5", "0", "18446744073709551616", "5"]);
    let witness = encode_exact(&inputs, 4).unwrap();
    assert_eq!(witness.len(), 4);
    assert_eq!(witness.get(0), Some(FieldElement::from_u64(5)));
    assert_eq!(witness.get(1), Some(FieldElement::zero()));
    assert_eq!(witness.get(2).unwrap().limbs(), (0, 1, 0, 0));
    assert_eq!(witness.get(3), Some(FieldElement::from_u64(5)));
    assert_eq!(witness.get(4), None);
}

#[test]
fn empty_list_for_empty_witness() {
    let witness = encode_exact(&Vec::new(), 0).unwrap();
    assert_eq!(witness.len(), 0);
    assert_eq!(witness.get(0), None);
}

#[test]
fn wrong_length_is_refused() {
    let inputs = strings(&["1", "2", "3"]);
    assert_eq!(
        encode_exact(&inputs, 4).unwrap_err(),
        EncodingError::WrongLength { expected: 4, found: 3 }
    );
    assert_eq!(
        encode_exact(&inputs, 2).unwrap_err(),
        EncodingError::WrongLength { expected: 2, found: 3 }
    );
    assert_eq!(
        encode_exact(&Vec::new(), 1).unwrap_err(),
        EncodingError::WrongLength { expected: 1, found: 0 }
    );
}

#[test]
fn wrong_length_comes_before_invalid_value() {
    let inputs = strings(&["x", "2"]);
    assert_eq!(
        encode_exact(&inputs, 3).unwrap_err(),
        EncodingError::WrongLength { expected: 3, found: 2 }
    );
}

#[test]
fn first_invalid_value_is_reported() {
    let inputs = strings(&["1", "2", "x", "4", "y"]);
    assert_eq!(encode_exact(&inputs, 5).unwrap_err(), EncodingError::InvalidValue { slot: 2 });
    let inputs = strings(&["", "2"]);
    assert_eq!(encode_exact(&inputs, 2).unwrap_err(), EncodingError::InvalidValue { slot: 0 });
    let inputs = strings(&["1", MODULUS]);
    assert_eq!(encode_exact(&inputs, 2).unwrap_err(), EncodingError::InvalidValue { slot: 1 });
}

#[test]
fn encode_checks_against_the_schema() {
    let schema = WitnessSchema::new(1, 0, 0, 0, 1).unwrap();
    let inputs = strings(&["9", "1", "2", "3", "1", "0", "1", "0", "77", "88"]);
    let witness = encode(&inputs, &schema).unwrap();
    assert_eq!(witness.len(), 10);
    assert_eq!(witness.get(8), Some(FieldElement::from_u64(77)));
    assert_eq!(witness.get(9), Some(FieldElement::from_u64(88)));
    let short = strings(&["9", "1", "2", "3", "1", "0", "1", "0", "77"]);
    assert_eq!(
        encode(&short, &schema).unwrap_err(),
        EncodingError::WrongLength { expected: 10, found: 9 }
    );
}

#[test]
fn swapping_two_different_values_changes_the_witness() {
    let inputs = strings(&["9", "1", "2", "3", "1", "0", "1", "0", "77", "88"]);
    let mut swapped = inputs.clone();
    swapped.swap(8, 9);
    let a = encode_exact(&inputs, 10).unwrap();
    let b = encode_exact(&swapped, 10).unwrap();
    assert_eq!(a.get(8), b.get(9));
    assert_eq!(a.get(9), b.get(8));
    assert_ne!(a.get(8), b.get(8));
    assert_ne!(a.get(9), b.get(9));
    for slot in 0..8 {
        assert_eq!(a.get(slot), b.get(slot));
    }
}
