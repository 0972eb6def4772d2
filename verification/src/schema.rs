//! The circuit's input schema: which named fields there are, in which order
//! they fill the witness, and how many slots each takes.

use vstd::prelude::*;

verus! {

/// A named input of the circuit. The variants stand in the order in which the
/// circuit declares its parameters.
#[derive(Clone, Copy, Debug, PartialEq, Eq, Structural)]
pub enum InputField {
    /// The storage cells of the padded document bytes.
    StorageCells,
    /// The length of the document content held in the storage cells.
    ContentLength,
    /// The padded-length parameter.
    PaddedLength,
    /// The positions of the delimiters in the document.
    DelimiterIndices,
    /// The limbs of the signature.
    SignatureLimbs,
    /// The limbs of the signer's modulus.
    ModulusLimbs,
    /// The limbs of the Montgomery reduction constant.
    ReductionLimbs,
    /// Whether to disclose that the holder is above eighteen.
    RevealAgeAbove18,
    /// Whether to disclose the gender.
    RevealGender,
    /// Whether to disclose the postal code.
    RevealPinCode,
    /// Whether to disclose the state.
    RevealState,
    /// The nullifier seed.
    NullifierSeed,
    /// The signal hash.
    SignalHash,
}

/// The number of named inputs.
pub const FIELD_COUNT: usize = 13;

/// The named inputs in canonical order.
pub open spec fn canonical_fields() -> Seq<InputField> {
    seq![
        InputField::StorageCells,
        InputField::ContentLength,
        InputField::PaddedLength,
        InputField::DelimiterIndices,
        InputField::SignatureLimbs,
        InputField::ModulusLimbs,
        InputField::ReductionLimbs,
        InputField::RevealAgeAbove18,
        InputField::RevealGender,
        InputField::RevealPinCode,
        InputField::RevealState,
        InputField::NullifierSeed,
        InputField::SignalHash,
    ]
}

impl InputField {
    /// The place of the field in the canonical order, counted from zero.
    pub open spec fn spec_position(self) -> nat {
        match self {
            InputField::StorageCells => 0,
            InputField::ContentLength => 1,
            InputField::PaddedLength => 2,
            InputField::DelimiterIndices => 3,
            InputField::SignatureLimbs => 4,
            InputField::ModulusLimbs => 5,
            InputField::ReductionLimbs => 6,
            InputField::RevealAgeAbove18 => 7,
            InputField::RevealGender => 8,
            InputField::RevealPinCode => 9,
            InputField::RevealState => 10,
            InputField::NullifierSeed => 11,
            InputField::SignalHash => 12,
        }
    }

    /// Whether the field is a list of values rather than a single one.
    pub open spec fn spec_is_list(self) -> bool {
        self == InputField::StorageCells || self == InputField::DelimiterIndices || self
            == InputField::SignatureLimbs || self == InputField::ModulusLimbs || self
            == InputField::ReductionLimbs
    }

    /// The place of the field in the canonical order, counted from zero.
    pub fn position(self) -> (p: usize)
        ensures
            p == self.spec_position(),
            p < FIELD_COUNT,
            canonical_fields()[p as int] == self,
    {
        match self {
            InputField::StorageCells => 0,
            InputField::ContentLength => 1,
            InputField::PaddedLength => 2,
            InputField::DelimiterIndices => 3,
            InputField::SignatureLimbs => 4,
            InputField::ModulusLimbs => 5,
            InputField::ReductionLimbs => 6,
            InputField::RevealAgeAbove18 => 7,
            InputField::RevealGender => 8,
            InputField::RevealPinCode => 9,
            InputField::RevealState => 10,
            InputField::NullifierSeed => 11,
            InputField::SignalHash => 12,
        }
    }

    /// The field at a place of the canonical order, if there is one.
    pub fn at(position: usize) -> (r: Option<InputField>)
        ensures
            r is Some <==> position < FIELD_COUNT,
            r matches Some(f) ==> f == canonical_fields()[position as int] && f.spec_position()
                == position,
    {
        match position {
            0 => Some(InputField::StorageCells),
            1 => Some(InputField::ContentLength),
            2 => Some(InputField::PaddedLength),
            3 => Some(InputField::DelimiterIndices),
            4 => Some(InputField::SignatureLimbs),
            5 => Some(InputField::ModulusLimbs),
            6 => Some(InputField::ReductionLimbs),
            7 => Some(InputField::RevealAgeAbove18),
            8 => Some(InputField::RevealGender),
            9 => Some(InputField::RevealPinCode),
            10 => Some(InputField::RevealState),
            11 => Some(InputField::NullifierSeed),
            12 => Some(InputField::SignalHash),
            _ => None,
        }
    }

    /// Whether the field is a list of values rather than a single one.
    pub fn is_list(self) -> (b: bool)
        ensures
            b == self.spec_is_list(),
    {
        match self {
            InputField::StorageCells => true,
            InputField::DelimiterIndices => true,
            InputField::SignatureLimbs => true,
            InputField::ModulusLimbs => true,
            InputField::ReductionLimbs => true,
            _ => false,
        }
    }
}

/// The canonical order lists every field once, at its own position.
pub proof fn lemma_canonical_fields()
    ensures
        canonical_fields().len() == FIELD_COUNT,
        forall|f: InputField| #[trigger]
            canonical_fields()[f.spec_position() as int] == f && f.spec_position() < FIELD_COUNT,
        forall|i: int|
            0 <= i < FIELD_COUNT ==> (#[trigger] canonical_fields()[i]).spec_position() == i,
{
}

/// How many witness slots each list-valued field takes. A single-valued field
/// takes one slot.
#[derive(Clone, Copy, Debug, PartialEq, Eq, Structural)]
pub struct WitnessSchema {
    storage_cells: usize,
    delimiter_indices: usize,
    signature_limbs: usize,
    modulus_limbs: usize,
    reduction_limbs: usize,
}

impl WitnessSchema {
    /// The number of slots that a field takes.
    pub closed spec fn spec_arity(&self, field: InputField) -> nat {
        match field {
            InputField::StorageCells => self.storage_cells as nat,
            InputField::DelimiterIndices => self.delimiter_indices as nat,
            InputField::SignatureLimbs => self.signature_limbs as nat,
            InputField::ModulusLimbs => self.modulus_limbs as nat,
            InputField::ReductionLimbs => self.reduction_limbs as nat,
            _ => 1,
        }
    }

    /// The number of slots that a run of fields takes together.
    pub open spec fn arity_sum(&self, fields: Seq<InputField>) -> nat
        decreases fields.len(),
    {
        if fields.len() == 0 {
            0
        } else {
            self.arity_sum(fields.drop_last()) + self.spec_arity(fields.last())
        }
    }

    /// The first slot of a field: the slots of all fields before it in the
    /// canonical order.
    pub open spec fn spec_offset(&self, field: InputField) -> nat {
        self.arity_sum(canonical_fields().take(field.spec_position() as int))
    }

    /// The number of slots of the whole witness.
    pub open spec fn spec_slot_count(&self) -> nat {
        self.arity_sum(canonical_fields())
    }

    /// Every schema is usable on this machine: its slot count fits a `usize`.
    #[verifier::type_invariant]
    spec fn well_formed(&self) -> bool {
        self.spec_slot_count() <= usize::MAX
    }

    /// Whether `slot` is the `index`-th slot of `field`.
    pub open spec fn slot_of(&self, slot: nat, field: InputField, index: nat) -> bool {
        index < self.spec_arity(field) && slot == self.spec_offset(field) + index
    }

    /// A run of fields, one field longer, takes that field's slots more.
    pub proof fn lemma_arity_sum_step(&self, fields: Seq<InputField>, k: int)
        requires
            0 <= k < fields.len(),
        ensures
            self.arity_sum(fields.take(k + 1)) == self.arity_sum(fields.take(k)) + self.spec_arity(
                fields[k],
            ),
    {
        assert(fields.take(k + 1).drop_last() =~= fields.take(k));
    }

    /// A longer run of fields takes at least as many slots.
    pub proof fn lemma_arity_sum_monotone(&self, fields: Seq<InputField>, i: int, j: int)
        requires
            0 <= i <= j <= fields.len(),
        ensures
            self.arity_sum(fields.take(i)) <= self.arity_sum(fields.take(j)),
        decreases j - i,
    {
        if i < j {
            self.lemma_arity_sum_monotone(fields, i, j - 1);
            self.lemma_arity_sum_step(fields, j - 1);
        }
    }

    /// The slots of a field end where the slots of the next field begin, and
    /// the slots of the last field end the witness.
    pub proof fn lemma_offset_step(&self, field: InputField)
        ensures
            self.spec_offset(field) + self.spec_arity(field) <= self.spec_slot_count(),
            forall|next: InputField|
                next.spec_position() == field.spec_position() + 1 ==> #[trigger] self.spec_offset(
                    next,
                ) == self.spec_offset(field) + self.spec_arity(field),
            field == InputField::SignalHash ==> self.spec_offset(field) + self.spec_arity(field)
                == self.spec_slot_count(),
    {
        let fields = canonical_fields();
        let p = field.spec_position() as int;
        self.lemma_arity_sum_step(fields, p);
        self.lemma_arity_sum_monotone(fields, p + 1, fields.len() as int);
        assert(fields.take(fields.len() as int) =~= fields);
    }

    /// Fields that come later in the canonical order start after the slots of
    /// those that come earlier.
    pub proof fn lemma_offsets_ordered(&self, first: InputField, second: InputField)
        requires
            first.spec_position() < second.spec_position(),
        ensures
            self.spec_offset(first) + self.spec_arity(first) <= self.spec_offset(second),
    {
        let fields = canonical_fields();
        let p = first.spec_position() as int;
        self.lemma_arity_sum_step(fields, p);
        self.lemma_arity_sum_monotone(fields, p + 1, second.spec_position() as int);
    }

    /// A slot belongs to at most one field, at one index of it.
    pub proof fn lemma_slot_unique(
        &self,
        slot: nat,
        f1: InputField,
        k1: nat,
        f2: InputField,
        k2: nat,
    )
        requires
            self.slot_of(slot, f1, k1),
            self.slot_of(slot, f2, k2),
        ensures
            f1 == f2,
            k1 == k2,
    {
        if f1.spec_position() < f2.spec_position() {
            self.lemma_offsets_ordered(f1, f2);
        } else if f2.spec_position() < f1.spec_position() {
            self.lemma_offsets_ordered(f2, f1);
        }
    }

    /// A field that is no list takes one slot.
    pub proof fn lemma_single_valued(&self)
        ensures
            forall|field: InputField|
                !field.spec_is_list() ==> #[trigger] self.spec_arity(field) == 1,
    {
    }

    /// The slot count is the sum of the five list lengths and the eight
    /// single values.
    pub proof fn lemma_slot_count(&self)
        ensures
            self.spec_slot_count() == self.spec_arity(InputField::StorageCells) + self.spec_arity(
                InputField::DelimiterIndices,
            ) + self.spec_arity(InputField::SignatureLimbs) + self.spec_arity(
                InputField::ModulusLimbs,
            ) + self.spec_arity(InputField::ReductionLimbs) + 8,
    {
        let fields = canonical_fields();
        assert(self.arity_sum(fields.take(0)) == 0);
        self.lemma_arity_sum_step(fields, 0);
        self.lemma_arity_sum_step(fields, 1);
        self.lemma_arity_sum_step(fields, 2);
        self.lemma_arity_sum_step(fields, 3);
        self.lemma_arity_sum_step(fields, 4);
        self.lemma_arity_sum_step(fields, 5);
        self.lemma_arity_sum_step(fields, 6);
        self.lemma_arity_sum_step(fields, 7);
        self.lemma_arity_sum_step(fields, 8);
        self.lemma_arity_sum_step(fields, 9);
        self.lemma_arity_sum_step(fields, 10);
        self.lemma_arity_sum_step(fields, 11);
        self.lemma_arity_sum_step(fields, 12);
        assert(fields.take(13) =~= fields);
    }

    /// A schema with the given list lengths, where the witness they make up
    /// can be indexed on this machine.
    pub fn new(
        storage_cells: usize,
        delimiter_indices: usize,
        signature_limbs: usize,
        modulus_limbs: usize,
        reduction_limbs: usize,
    ) -> (r: Option<WitnessSchema>)
        ensures
            r is Some <==> storage_cells + delimiter_indices + signature_limbs + modulus_limbs
                + reduction_limbs + 8 <= usize::MAX,
            r matches Some(s) ==> {
                &&& s.spec_slot_count() <= usize::MAX
                &&& s.spec_arity(InputField::StorageCells) == storage_cells
                &&& s.spec_arity(InputField::DelimiterIndices) == delimiter_indices
                &&& s.spec_arity(InputField::SignatureLimbs) == signature_limbs
                &&& s.spec_arity(InputField::ModulusLimbs) == modulus_limbs
                &&& s.spec_arity(InputField::ReductionLimbs) == reduction_limbs
            },
    {
        let ghost schema = WitnessSchema {
            storage_cells,
            delimiter_indices,
            signature_limbs,
            modulus_limbs,
            reduction_limbs,
        };
        proof {
            schema.lemma_slot_count();
        }
        let mut total: usize = 8;
        if storage_cells > usize::MAX - total {
            return None;
        }
        total = total + storage_cells;
        if delimiter_indices > usize::MAX - total {
            return None;
        }
        total = total + delimiter_indices;
        if signature_limbs > usize::MAX - total {
            return None;
        }
        total = total + signature_limbs;
        if modulus_limbs > usize::MAX - total {
            return None;
        }
        total = total + modulus_limbs;
        if reduction_limbs > usize::MAX - total {
            return None;
        }
        Some(
            WitnessSchema {
                storage_cells,
                delimiter_indices,
                signature_limbs,
                modulus_limbs,
                reduction_limbs,
            },
        )
    }

    /// The number of slots that a field takes.
    pub fn arity(&self, field: InputField) -> (n: usize)
        ensures
            n == self.spec_arity(field),
            !field.spec_is_list() ==> n == 1,
    {
        match field {
            InputField::StorageCells => self.storage_cells,
            InputField::DelimiterIndices => self.delimiter_indices,
            InputField::SignatureLimbs => self.signature_limbs,
            InputField::ModulusLimbs => self.modulus_limbs,
            InputField::ReductionLimbs => self.reduction_limbs,
            _ => 1,
        }
    }

    /// The slots taken by the first `count` fields of the canonical order.
    fn prefix_slots(&self, count: usize) -> (n: usize)
        requires
            count <= FIELD_COUNT,
        ensures
            n == self.arity_sum(canonical_fields().take(count as int)),
    {
        proof {
            use_type_invariant(self);
        }
        let mut total: usize = 0;
        let mut p: usize = 0;
        while p < count
            invariant
                self.spec_slot_count() <= usize::MAX,
                p <= count <= FIELD_COUNT,
                total == self.arity_sum(canonical_fields().take(p as int)),
            decreases count - p,
        {
            proof {
                let fields = canonical_fields();
                self.lemma_arity_sum_step(fields, p as int);
                self.lemma_arity_sum_monotone(fields, p as int + 1, fields.len() as int);
                assert(fields.take(fields.len() as int) =~= fields);
            }
            match InputField::at(p) {
                Some(field) => {
                    total = total + self.arity(field);
                },
                None => {},
            }
            p = p + 1;
        }
        total
    }

    /// The first slot of a field.
    pub fn offset(&self, field: InputField) -> (n: usize)
        ensures
            n == self.spec_offset(field),
    {
        self.prefix_slots(field.position())
    }

    /// The number of slots of the whole witness.
    pub fn slot_count(&self) -> (n: usize)
        ensures
            n == self.spec_slot_count(),
    {
        proof {
            assert(canonical_fields().take(FIELD_COUNT as int) =~= canonical_fields());
        }
        self.prefix_slots(FIELD_COUNT)
    }

    /// The field that a slot belongs to, and the slot's index within that
    /// field. There is one exactly for the slots below the slot count.
    pub fn field_at(&self, slot: usize) -> (r: Option<(InputField, usize)>)
        ensures
            r is Some <==> slot < self.spec_slot_count(),
            r matches Some((field, index)) ==> self.slot_of(slot as nat, field, index as nat),
    {
        proof {
            use_type_invariant(self);
        }
        let mut start: usize = 0;
        let mut p: usize = 0;
        while p < FIELD_COUNT
            invariant
                self.spec_slot_count() <= usize::MAX,
                p <= FIELD_COUNT,
                start == self.arity_sum(canonical_fields().take(p as int)),
                start <= slot,
            decreases FIELD_COUNT - p,
        {
            proof {
                let fields = canonical_fields();
                self.lemma_arity_sum_step(fields, p as int);
                self.lemma_arity_sum_monotone(fields, p as int + 1, fields.len() as int);
                assert(fields.take(fields.len() as int) =~= fields);
            }
            match InputField::at(p) {
                Some(field) => {
                    let width = self.arity(field);
                    if slot - start < width {
                        return Some((field, slot - start));
                    }
                    start = start + width;
                },
                None => {},
            }
            p = p + 1;
        }
        proof {
            assert(canonical_fields().take(FIELD_COUNT as int) =~= canonical_fields());
        }
        None
    }
}

} // verus!
