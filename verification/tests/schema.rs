use anon_aadhaar::schema::{InputField, WitnessSchema, FIELD_COUNT};

const ALL: [InputField; 13] = [
    InputField::StorageCells,
    InputField::ContentLength,
    InputField::PaddedLength,
    InputField::DelimiterIndices,
    InputField::SignatureLimbs,
    InputField::ModulusLimbs,
    InputField::ReductionLimbs,
    InputField::RevealAgeAbove18,
    InputField::RevealGender,
    InputField::RevealPinCode,
    InputField::RevealState,
    InputField::NullifierSeed,
    InputField::SignalHash,
];

#[test]
fn positions_follow_the_canonical_order() {
    assert_eq!(FIELD_COUNT, 13);
    for (i, field) in ALL.iter().enumerate() {
        assert_eq!(field.position(), i);
        assert_eq!(InputField::at(i), Some(*field));
    }
    assert_eq!(InputField::at(13), None);
    assert_eq!(InputField::at(usize::MAX), None);
}

#[test]
fn five_fields_are_lists() {
    let lists: Vec<InputField> = ALL.iter().copied().filter(|f| f.is_list()).collect();
    assert_eq!(
        lists,
        vec![
            InputField::StorageCells,
            InputField::DelimiterIndices,
            InputField::SignatureLimbs,
            InputField::ModulusLimbs,
            InputField::ReductionLimbs,
        ]
    );
}

#[test]
fn arities_and_offsets() {
    let schema = WitnessSchema::new(5, 4, 3, 2, 1).unwrap();
    let arities = [5, 1, 1, 4, 3, 2, 1, 1, 1, 1, 1, 1, 1];
    let offsets = [0, 5, 6, 7, 11, 14, 16, 17, 18, 19, 20, 21, 22];
    for (i, field) in ALL.iter().enumerate() {
        assert_eq!(schema.arity(*field), arities[i]);
        assert_eq!(schema.offset(*field), offsets[i]);
    }
    assert_eq!(schema.slot_count(), 23);
}

#[test]
fn empty_lists_leave_the_eight_single_values() {
    let schema = WitnessSchema::new(0, 0, 0, 0, 0).unwrap();
    assert_eq!(schema.slot_count(), 8);
    assert_eq!(schema.offset(InputField::SignalHash), 7);
    assert_eq!(schema.field_at(0), Some((InputField::ContentLength, 0)));
    assert_eq!(schema.field_at(7), Some((InputField::SignalHash, 0)));
    assert_eq!(schema.field_at(8), None);
}

#[test]
fn field_at_names_field_and_index() {
    let schema = WitnessSchema::new(5, 4, 3, 2, 1).unwrap();
    assert_eq!(schema.field_at(0), Some((InputField::StorageCells, 0)));
    assert_eq!(schema.field_at(4), Some((InputField::StorageCells, 4)));
    assert_eq!(schema.field_at(5), Some((InputField::ContentLength, 0)));
    assert_eq!(schema.field_at(6), Some((InputField::PaddedLength, 0)));
    assert_eq!(schema.field_at(10), Some((InputField::DelimiterIndices, 3)));
    assert_eq!(schema.field_at(13), Some((InputField::SignatureLimbs, 2)));
    assert_eq!(schema.field_at(15), Some((InputField::ModulusLimbs, 1)));
    assert_eq!(schema.field_at(16), Some((InputField::ReductionLimbs, 0)));
    assert_eq!(schema.field_at(17), Some((InputField::RevealAgeAbove18, 0)));
    assert_eq!(schema.field_at(18), Some((InputField::RevealGender, 0)));
    assert_eq!(schema.field_at(19), Some((InputField::RevealPinCode, 0)));
    assert_eq!(schema.field_at(20), Some((InputField::RevealState, 0)));
    assert_eq!(schema.field_at(21), Some((InputField::NullifierSeed, 0)));
    assert_eq!(schema.field_at(22), Some((InputField::SignalHash, 0)));
    assert_eq!(schema.field_at(23), None);
    assert_eq!(schema.field_at(usize::MAX), None);
}

#[test]
fn every_slot_is_found_again_from_its_field() {
    let schema = WitnessSchema::new(3, 0, 2, 0, 4).unwrap();
    for slot in 0..schema.slot_count() {
        let (field, index) = schema.field_at(slot).unwrap();
        assert!(index < schema.arity(field));
        assert_eq!(schema.offset(field) + index, slot);
    }
}

#[test]
fn a_witness_too_large_to_index_has_no_schema() {
    assert_eq!(WitnessSchema::new(usize::MAX, 0, 0, 0, 0), None);
    assert_eq!(WitnessSchema::new(usize::MAX - 7, 0, 0, 0, 0), None);
    assert_eq!(WitnessSchema::new(0, 0, usize::MAX / 2, usize::MAX / 2, 0), None);
    assert_eq!(WitnessSchema::new(0, 0, 0, 0, usize::MAX - 7), None);
    let largest = WitnessSchema::new(usize::MAX - 8, 0, 0, 0, 0).unwrap();
    assert_eq!(largest.slot_count(), usize::MAX);
    assert_eq!(largest.offset(InputField::SignalHash), usize::MAX - 1);
}
