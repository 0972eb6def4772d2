//! The witness encoder: from the flat list of decimal texts to the witness
//! assignment, slot by slot and in the order given.

use crate::field::{decimal_value, field_modulus, is_field_decimal, FieldElement};
use crate::inputs::texts;
use crate::schema::WitnessSchema;
use vstd::prelude::*;

verus! {

/// Why a list of inputs was not encoded.
#[derive(Clone, Copy, Debug, PartialEq, Eq, Structural)]
pub enum EncodingError {
    /// The list does not have as many entries as the witness has slots.
    WrongLength { expected: usize, found: usize },
    /// The entry at `slot` is not the decimal form of a field element; every
    /// entry before it is.
    InvalidValue { slot: usize },
}

/// Whether every entry is the decimal form of a field element.
pub open spec fn all_field_decimals(inputs: Seq<Seq<char>>) -> bool {
    forall|i: int| 0 <= i < inputs.len() ==> is_field_decimal(#[trigger] inputs[i])
}

/// Whether `slot` holds the first entry that is not the decimal form of a
/// field element.
pub open spec fn is_first_invalid(inputs: Seq<Seq<char>>, slot: int) -> bool {
    &&& 0 <= slot < inputs.len()
    &&& !is_field_decimal(inputs[slot])
    &&& forall|i: int| 0 <= i < slot ==> is_field_decimal(#[trigger] inputs[i])
}

/// The value of each entry, slot by slot.
pub open spec fn values_of(inputs: Seq<Seq<char>>) -> Seq<nat> {
    Seq::new(inputs.len(), |i: int| decimal_value(inputs[i]))
}

/// What encoding a list of inputs for a witness of `expected` slots gives:
/// the values slot by slot, or the reason why there are none.
pub open spec fn encoding(inputs: Seq<Seq<char>>, expected: nat) -> Result<
    Seq<nat>,
    EncodingError,
> {
    if inputs.len() != expected {
        Err(
            EncodingError::WrongLength {
                expected: expected as usize,
                found: inputs.len() as usize,
            },
        )
    } else if all_field_decimals(inputs) {
        Ok(values_of(inputs))
    } else {
        Err(
            EncodingError::InvalidValue {
                slot: (choose|slot: int| is_first_invalid(inputs, slot)) as usize,
            },
        )
    }
}

/// A list with an entry that is no field element has one first such entry.
pub proof fn lemma_first_invalid_unique(inputs: Seq<Seq<char>>, slot: int)
    requires
        is_first_invalid(inputs, slot),
    ensures
        !all_field_decimals(inputs),
        (choose|s: int| is_first_invalid(inputs, s)) == slot,
{
    let chosen = choose|s: int| is_first_invalid(inputs, s);
    assert(is_first_invalid(inputs, chosen));
    if chosen < slot {
        assert(is_field_decimal(inputs[chosen]));
    } else if slot < chosen {
        assert(is_field_decimal(inputs[slot]));
    }
}

/// The sequence with the entries at two places exchanged.
pub open spec fn swapped<T>(items: Seq<T>, i: int, j: int) -> Seq<T> {
    items.update(i, items[j]).update(j, items[i])
}

/// Order matters: exchanging two entries of different value in an accepted
/// list gives a list that is accepted too, and a different witness, which
/// holds each of the two values in the other one's slot.
pub proof fn lemma_swap_changes_witness(inputs: Seq<Seq<char>>, expected: nat, i: int, j: int)
    requires
        encoding(inputs, expected) is Ok,
        0 <= i < inputs.len(),
        0 <= j < inputs.len(),
        decimal_value(inputs[i]) != decimal_value(inputs[j]),
    ensures
        encoding(swapped(inputs, i, j), expected) is Ok,
        encoding(swapped(inputs, i, j), expected) != encoding(inputs, expected),
        encoding(swapped(inputs, i, j), expected)->Ok_0[i] == encoding(inputs, expected)->Ok_0[j],
        encoding(swapped(inputs, i, j), expected)->Ok_0[j] == encoding(inputs, expected)->Ok_0[i],
{
    let other = swapped(inputs, i, j);
    assert forall|k: int| 0 <= k < other.len() implies is_field_decimal(#[trigger] other[k]) by {
        if k == j {
            assert(is_field_decimal(inputs[i]));
        } else if k == i {
            assert(is_field_decimal(inputs[j]));
        } else {
            assert(is_field_decimal(inputs[k]));
        }
    }
    assert(values_of(other)[i] == decimal_value(inputs[j]));
    assert(values_of(inputs)[i] == decimal_value(inputs[i]));
}

/// A witness assignment: one field element for each slot of the witness, in
/// slot order.
#[derive(Clone, Debug)]
pub struct WitnessAssignment {
    slots: Vec<FieldElement>,
}

impl View for WitnessAssignment {
    type V = Seq<nat>;

    closed spec fn view(&self) -> Seq<nat> {
        Seq::new(self.slots@.len(), |i: int| self.slots@[i].value())
    }
}

impl WitnessAssignment {
    /// Every slot holds a reduced field element.
    pub open spec fn wf(&self) -> bool {
        forall|i: int| 0 <= i < self@.len() ==> #[trigger] self@[i] < field_modulus()
    }

    /// The number of slots.
    pub fn len(&self) -> (n: usize)
        ensures
            n == self@.len(),
    {
        self.slots.len()
    }

    /// The element in a slot, if the witness has that slot.
    pub fn get(&self, slot: usize) -> (r: Option<FieldElement>)
        ensures
            r is Some <==> slot < self@.len(),
            r matches Some(e) ==> e.value() == self@[slot as int],
    {
        if slot < self.slots.len() {
            Some(self.slots[slot])
        } else {
            None
        }
    }
}

/// An accepted list gives reduced field elements only.
pub proof fn lemma_encoding_reduced(inputs: Seq<Seq<char>>, expected: nat)
    requires
        encoding(inputs, expected) is Ok,
    ensures
        encoding(inputs, expected)->Ok_0.len() == expected,
        forall|i: int|
            0 <= i < expected ==> #[trigger] encoding(inputs, expected)->Ok_0[i] < field_modulus(),
{
    assert forall|i: int| 0 <= i < expected implies #[trigger] values_of(inputs)[i]
        < field_modulus() by {
        assert(is_field_decimal(inputs[i]));
    }
}

/// Encodes the flat input list for a witness of `expected` slots.
///
/// The list is accepted exactly when it has `expected` entries and each is
/// the decimal form of a field element. The witness then holds, slot by slot
/// and in the order given, the value of each entry; nothing is reordered.
/// A list of another length is refused as such; otherwise the first entry
/// that is no field element is reported.
pub fn encode_exact(inputs: &Vec<String>, expected: usize) -> (r: Result<
    WitnessAssignment,
    EncodingError,
>)
    ensures
        match r {
            Ok(w) => w.wf() && encoding(texts(inputs@), expected as nat) == Ok::<
                Seq<nat>,
                EncodingError,
            >(w@),
            Err(e) => encoding(texts(inputs@), expected as nat) == Err::<
                Seq<nat>,
                EncodingError,
            >(e),
        },
{
    let n = inputs.len();
    if n != expected {
        return Err(EncodingError::WrongLength { expected, found: n });
    }
    let mut slots: Vec<FieldElement> = Vec::new();
    let mut i: usize = 0;
    while i < n
        invariant
            i <= n,
            n == inputs@.len(),
            n == expected,
            slots@.len() == i,
            forall|k: int| 0 <= k < i ==> is_field_decimal(#[trigger] texts(inputs@)[k]),
            forall|k: int|
                0 <= k < i ==> (#[trigger] slots@[k]).wf() && slots@[k].value() == decimal_value(
                    texts(inputs@)[k],
                ),
        decreases n - i,
    {
        assert(texts(inputs@)[i as int] == inputs@[i as int]@);
        match FieldElement::from_decimal(inputs[i].as_str()) {
            Some(element) => {
                slots.push(element);
            },
            None => {
                proof {
                    lemma_first_invalid_unique(texts(inputs@), i as int);
                }
                return Err(EncodingError::InvalidValue { slot: i });
            },
        }
        i = i + 1;
    }
    let witness = WitnessAssignment { slots };
    assert(witness@ =~= values_of(texts(inputs@)));
    proof {
        lemma_encoding_reduced(texts(inputs@), expected as nat);
    }
    Ok(witness)
}

/// Encodes the flat input list for the witness that a schema describes.
///
/// This is `encode_exact` for the schema's slot count.
pub fn encode(inputs: &Vec<String>, schema: &WitnessSchema) -> (r: Result<
    WitnessAssignment,
    EncodingError,
>)
    ensures
        match r {
            Ok(w) => w.wf() && encoding(texts(inputs@), schema.spec_slot_count()) == Ok::<
                Seq<nat>,
                EncodingError,
            >(w@),
            Err(e) => encoding(texts(inputs@), schema.spec_slot_count()) == Err::<
                Seq<nat>,
                EncodingError,
            >(e),
        },
{
    encode_exact(inputs, schema.slot_count())
}

} // verus!
