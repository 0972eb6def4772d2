//! The named inputs of the circuit and their flat, canonically ordered form.

use crate::schema::{canonical_fields, InputField, WitnessSchema, FIELD_COUNT};
use vstd::prelude::*;

verus! {

/// The text of each string of a sequence.
pub open spec fn texts(items: Seq<String>) -> Seq<Seq<char>> {
    Seq::new(items.len(), |i: int| items[i]@)
}

/// The inputs of the circuit by name, each value in decimal text.
#[derive(Clone, Debug)]
pub struct NamedInputs {
    /// The storage cells of the padded document bytes, in declaration order.
    pub storage: Vec<String>,
    /// The length of the document content.
    pub content_length: String,
    /// The padded-length parameter.
    pub padded_length: String,
    /// The delimiter positions, in order.
    pub delimiter_indices: Vec<String>,
    /// The signature limbs, in order.
    pub signature_limbs: Vec<String>,
    /// The modulus limbs, in order.
    pub modulus_limbs: Vec<String>,
    /// The limbs of the Montgomery reduction constant, in order.
    pub reduction_limbs: Vec<String>,
    /// The age-above-eighteen reveal flag.
    pub reveal_age_above18: String,
    /// The gender reveal flag.
    pub reveal_gender: String,
    /// The postal-code reveal flag.
    pub reveal_pin_code: String,
    /// The state reveal flag.
    pub reveal_state: String,
    /// The nullifier seed.
    pub nullifier_seed: String,
    /// The signal hash.
    pub signal_hash: String,
}

/// Appends a copy of one string.
fn push_text(out: &mut Vec<String>, item: &String)
    ensures
        texts(final(out)@) == texts(old(out)@).push(item@),
{
    out.push(item.clone());
    assert(texts(out@) =~= texts(old(out)@).push(item@));
}

/// Appends copies of the strings of a list, in order.
fn push_texts(out: &mut Vec<String>, items: &Vec<String>)
    ensures
        texts(final(out)@) == texts(old(out)@) + texts(items@),
{
    let mut i: usize = 0;
    assert(texts(out@) =~= texts(old(out)@) + texts(items@).take(0));
    while i < items.len()
        invariant
            i <= items.len(),
            texts(out@) == texts(old(out)@) + texts(items@).take(i as int),
        decreases items.len() - i,
    {
        let ghost before = texts(out@);
        push_text(out, &items[i]);
        assert(before.push(items[i as int]@) =~= texts(old(out)@) + texts(items@).take(
            i as int + 1,
        ));
        i = i + 1;
    }
    assert(texts(items@).take(items.len() as int) =~= texts(items@));
}

impl NamedInputs {
    /// The values of a field, in order; one value for a single-valued field.
    pub open spec fn values(&self, field: InputField) -> Seq<Seq<char>> {
        match field {
            InputField::StorageCells => texts(self.storage@),
            InputField::ContentLength => seq![self.content_length@],
            InputField::PaddedLength => seq![self.padded_length@],
            InputField::DelimiterIndices => texts(self.delimiter_indices@),
            InputField::SignatureLimbs => texts(self.signature_limbs@),
            InputField::ModulusLimbs => texts(self.modulus_limbs@),
            InputField::ReductionLimbs => texts(self.reduction_limbs@),
            InputField::RevealAgeAbove18 => seq![self.reveal_age_above18@],
            InputField::RevealGender => seq![self.reveal_gender@],
            InputField::RevealPinCode => seq![self.reveal_pin_code@],
            InputField::RevealState => seq![self.reveal_state@],
            InputField::NullifierSeed => seq![self.nullifier_seed@],
            InputField::SignalHash => seq![self.signal_hash@],
        }
    }

    /// The values of a run of fields, one field after the other.
    pub open spec fn values_of_fields(&self, fields: Seq<InputField>) -> Seq<Seq<char>>
        decreases fields.len(),
    {
        if fields.len() == 0 {
            Seq::empty()
        } else {
            self.values_of_fields(fields.drop_last()) + self.values(fields.last())
        }
    }

    /// The flat input sequence: the values of all fields in canonical order.
    pub open spec fn canonical_sequence(&self) -> Seq<Seq<char>> {
        self.values_of_fields(canonical_fields())
    }

    /// Whether a schema gives each field as many slots as it has values here.
    pub open spec fn fits(&self, schema: WitnessSchema) -> bool {
        forall|field: InputField| #[trigger] schema.spec_arity(field) == self.values(field).len()
    }

    /// A run of fields, one field longer, has that field's values appended.
    pub proof fn lemma_values_step(&self, fields: Seq<InputField>, k: int)
        requires
            0 <= k < fields.len(),
        ensures
            self.values_of_fields(fields.take(k + 1)) == self.values_of_fields(fields.take(k))
                + self.values(fields[k]),
    {
        assert(fields.take(k + 1).drop_last() =~= fields.take(k));
    }

    /// Under a schema that fits, a run of fields has as many values as the
    /// schema gives it slots.
    pub proof fn lemma_values_len(&self, schema: WitnessSchema, fields: Seq<InputField>)
        requires
            self.fits(schema),
        ensures
            self.values_of_fields(fields).len() == schema.arity_sum(fields),
        decreases fields.len(),
    {
        if fields.len() > 0 {
            self.lemma_values_len(schema, fields.drop_last());
        }
    }

    /// A value of a field stands in a longer run of fields where it stood in
    /// the shorter one.
    pub proof fn lemma_values_prefix(&self, fields: Seq<InputField>, i: int, j: int, slot: int)
        requires
            0 <= i <= j <= fields.len(),
            0 <= slot < self.values_of_fields(fields.take(i)).len(),
        ensures
            slot < self.values_of_fields(fields.take(j)).len(),
            self.values_of_fields(fields.take(j))[slot] == self.values_of_fields(
                fields.take(i),
            )[slot],
        decreases j - i,
    {
        if i < j {
            self.lemma_values_prefix(fields, i, j - 1, slot);
            self.lemma_values_step(fields, j - 1);
        }
    }

    /// The canonical order, slot by slot: under a schema that fits, the slot
    /// that the schema gives to the `index`-th value of a field holds that value.
    pub proof fn lemma_canonical_slot(&self, schema: WitnessSchema, field: InputField, index: int)
        requires
            self.fits(schema),
            0 <= index < self.values(field).len(),
        ensures
            schema.spec_offset(field) + index < self.canonical_sequence().len(),
            self.canonical_sequence().len() == schema.spec_slot_count(),
            self.canonical_sequence()[schema.spec_offset(field) + index] == self.values(
                field,
            )[index],
    {
        let fields = canonical_fields();
        let p = field.spec_position() as int;
        self.lemma_values_len(schema, fields.take(p));
        self.lemma_values_len(schema, fields);
        self.lemma_values_step(fields, p);
        let slot = schema.spec_offset(field) + index;
        self.lemma_values_prefix(fields, p + 1, fields.len() as int, slot);
        assert(fields.take(fields.len() as int) =~= fields);
    }

    /// Appends copies of the values of one field.
    fn push_field(&self, out: &mut Vec<String>, field: InputField)
        ensures
            texts(final(out)@) == texts(old(out)@) + self.values(field),
    {
        match field {
            InputField::StorageCells => push_texts(out, &self.storage),
            InputField::ContentLength => push_text(out, &self.content_length),
            InputField::PaddedLength => push_text(out, &self.padded_length),
            InputField::DelimiterIndices => push_texts(out, &self.delimiter_indices),
            InputField::SignatureLimbs => push_texts(out, &self.signature_limbs),
            InputField::ModulusLimbs => push_texts(out, &self.modulus_limbs),
            InputField::ReductionLimbs => push_texts(out, &self.reduction_limbs),
            InputField::RevealAgeAbove18 => push_text(out, &self.reveal_age_above18),
            InputField::RevealGender => push_text(out, &self.reveal_gender),
            InputField::RevealPinCode => push_text(out, &self.reveal_pin_code),
            InputField::RevealState => push_text(out, &self.reveal_state),
            InputField::NullifierSeed => push_text(out, &self.nullifier_seed),
            InputField::SignalHash => push_text(out, &self.signal_hash),
        }
        assert(texts(out@) =~= texts(old(out)@) + self.values(field));
    }

    /// The flat input list that the circuit expects: the values of all fields,
    /// one field after the other, in canonical order.
    pub fn flatten(&self) -> (out: Vec<String>)
        ensures
            texts(out@) == self.canonical_sequence(),
    {
        let mut out: Vec<String> = Vec::new();
        let mut p: usize = 0;
        assert(texts(out@) =~= self.values_of_fields(canonical_fields().take(0)));
        while p < FIELD_COUNT
            invariant
                p <= FIELD_COUNT,
                texts(out@) == self.values_of_fields(canonical_fields().take(p as int)),
            decreases FIELD_COUNT - p,
        {
            proof {
                self.lemma_values_step(canonical_fields(), p as int);
            }
            match InputField::at(p) {
                Some(field) => {
                    self.push_field(&mut out, field);
                },
                None => {},
            }
            p = p + 1;
        }
        assert(canonical_fields().take(FIELD_COUNT as int) =~= canonical_fields());
        out
    }

    /// The schema that gives each field as many slots as it has values here,
    /// where the witness they make up can be indexed on this machine.
    pub fn schema(&self) -> (r: Option<WitnessSchema>)
        ensures
            r is Some <==> self.canonical_sequence().len() <= usize::MAX,
            r matches Some(s) ==> self.fits(s),
    {
        let r = WitnessSchema::new(
            self.storage.len(),
            self.delimiter_indices.len(),
            self.signature_limbs.len(),
            self.modulus_limbs.len(),
            self.reduction_limbs.len(),
        );
        proof {
            self.lemma_flat_len();
            if let Some(s) = r {
                s.lemma_single_valued();
                assert(self.fits(s));
            }
        }
        r
    }

    /// The flat input sequence has the five lists' values and eight more.
    pub proof fn lemma_flat_len(&self)
        ensures
            self.canonical_sequence().len() == self.storage@.len() + self.delimiter_indices@.len()
                + self.signature_limbs@.len() + self.modulus_limbs@.len()
                + self.reduction_limbs@.len() + 8,
    {
        let fields = canonical_fields();
        assert(self.values_of_fields(fields.take(0)).len() == 0);
        self.lemma_values_step(fields, 0);
        self.lemma_values_step(fields, 1);
        self.lemma_values_step(fields, 2);
        self.lemma_values_step(fields, 3);
        self.lemma_values_step(fields, 4);
        self.lemma_values_step(fields, 5);
        self.lemma_values_step(fields, 6);
        self.lemma_values_step(fields, 7);
        self.lemma_values_step(fields, 8);
        self.lemma_values_step(fields, 9);
        self.lemma_values_step(fields, 10);
        self.lemma_values_step(fields, 11);
        self.lemma_values_step(fields, 12);
        assert(fields.take(13) =~= fields);
    }
}

} // verus!
