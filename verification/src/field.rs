//! Elements of the circuit's prime field, read from decimal text.
//!
//! A field element is held as four 64-bit limbs, least significant first, and
//! stands for a natural number below the field's order. Text is accepted when
//! it is a non-empty run of ASCII digits whose value is below that order.

use vstd::prelude::*;
use vstd::string::*;
use vstd::utf8::is_ascii_chars;

verus! {

/// The weight of one limb: two to the power 64.
pub open spec fn limb_base() -> nat {
    0x1_0000_0000_0000_0000
}

/// The number that four limbs stand for, least significant limb first.
pub open spec fn limbs_value(l0: u64, l1: u64, l2: u64, l3: u64) -> nat {
    l0 as nat + limb_base() * (l1 as nat + limb_base() * (l2 as nat + limb_base() * (l3 as nat)))
}

/// Least significant limb of the field's order.
pub const MODULUS_0: u64 = 0x43e1_f593_f000_0001;

/// Second limb of the field's order.
pub const MODULUS_1: u64 = 0x2833_e848_79b9_7091;

/// Third limb of the field's order.
pub const MODULUS_2: u64 = 0xb850_45b6_8181_585d;

/// Most significant limb of the field's order.
pub const MODULUS_3: u64 = 0x3064_4e72_e131_a029;

/// The order of the circuit's scalar field, a 254-bit prime.
pub open spec fn field_modulus() -> nat {
    limbs_value(MODULUS_0, MODULUS_1, MODULUS_2, MODULUS_3)
}

/// Whether a character is one of the ten ASCII digits.
pub open spec fn is_digit(c: char) -> bool {
    '0' <= c && c <= '9'
}

/// The number a digit stands for.
pub open spec fn digit_value(c: char) -> nat {
    (c as u32 - '0' as u32) as nat
}

/// Whether text is a non-empty run of ASCII digits.
pub open spec fn is_decimal(s: Seq<char>) -> bool {
    s.len() > 0 && forall|i: int| 0 <= i < s.len() ==> is_digit(#[trigger] s[i])
}

/// The number that a run of digits stands for, most significant digit first.
pub open spec fn decimal_value(s: Seq<char>) -> nat
    decreases s.len(),
{
    if s.len() == 0 {
        0
    } else {
        10 * decimal_value(s.drop_last()) + digit_value(s.last())
    }
}

/// Whether text is the decimal form of a field element: digits only, at least
/// one of them, and a value below the field's order.
pub open spec fn is_field_decimal(s: Seq<char>) -> bool {
    is_decimal(s) && decimal_value(s) < field_modulus()
}

/// The value of a prefix of a run of digits never exceeds the value of the
/// whole run.
pub proof fn lemma_prefix_value_bounded(s: Seq<char>, k: int)
    requires
        0 <= k <= s.len(),
    ensures
        decimal_value(s.take(k)) <= decimal_value(s),
    decreases s.len() - k,
{
    if k == s.len() {
        assert(s.take(k) =~= s);
    } else {
        lemma_prefix_value_bounded(s.drop_last(), k);
        assert(s.drop_last().take(k) =~= s.take(k));
    }
}

/// The value of a prefix, one digit longer.
pub proof fn lemma_prefix_value_step(s: Seq<char>, k: int)
    requires
        0 <= k < s.len(),
    ensures
        decimal_value(s.take(k + 1)) == 10 * decimal_value(s.take(k)) + digit_value(s[k]),
{
    assert(s.take(k + 1).drop_last() =~= s.take(k));
    assert(s.take(k + 1).last() == s[k]);
}

/// A number splits into its lowest limb and the rest in one way only.
pub proof fn lemma_limb_split(low: u64, high: int, other_low: u64, other_high: int)
    requires
        low as int + limb_base() * high == other_low as int + limb_base() * other_high,
    ensures
        low == other_low,
        high == other_high,
{
    assert(limb_base() * (high - other_high) == other_low as int - low as int) by (nonlinear_arith)
        requires
            low as int + limb_base() * high == other_low as int + limb_base() * other_high,
    ;
    if high > other_high {
        assert(limb_base() * (high - other_high) >= limb_base()) by (nonlinear_arith)
            requires
                high - other_high >= 1,
        ;
    } else if high < other_high {
        assert(limb_base() * (high - other_high) <= -limb_base()) by (nonlinear_arith)
            requires
                high - other_high <= -1,
        ;
    }
}

/// An element of the circuit's prime field.
#[derive(Clone, Copy, Debug, PartialEq, Eq, Structural)]
pub struct FieldElement {
    l0: u64,
    l1: u64,
    l2: u64,
    l3: u64,
}

/// The result of multiplying one limb by ten and adding what was carried in.
struct LimbStep {
    limb: u64,
    carry: u64,
}

/// Ten times a limb plus a carry of at most ten, as a new limb and the carry out.
fn limb_times_ten(limb: u64, carry: u64) -> (r: LimbStep)
    requires
        carry <= 10,
    ensures
        r.limb as nat + limb_base() * (r.carry as nat) == 10 * (limb as nat) + carry as nat,
        r.carry <= 10,
{
    let wide: u128 = (limb as u128) * 10 + (carry as u128);
    let low: u128 = wide % 0x1_0000_0000_0000_0000u128;
    let high: u128 = wide / 0x1_0000_0000_0000_0000u128;
    LimbStep { limb: low as u64, carry: high as u64 }
}

/// Whether four limbs stand for a number below the field's order.
fn limbs_below_modulus(l0: u64, l1: u64, l2: u64, l3: u64) -> (r: bool)
    ensures
        r == (limbs_value(l0, l1, l2, l3) < field_modulus()),
{
    if l3 != MODULUS_3 {
        l3 < MODULUS_3
    } else if l2 != MODULUS_2 {
        l2 < MODULUS_2
    } else if l1 != MODULUS_1 {
        l1 < MODULUS_1
    } else {
        l0 < MODULUS_0
    }
}

impl FieldElement {
    /// The natural number that the element stands for.
    pub closed spec fn value(&self) -> nat {
        limbs_value(self.l0, self.l1, self.l2, self.l3)
    }

    /// The element is reduced: its value is below the field's order.
    pub open spec fn wf(&self) -> bool {
        self.value() < field_modulus()
    }

    /// The four limbs of the element, least significant first.
    pub closed spec fn spec_limbs(&self) -> (u64, u64, u64, u64) {
        (self.l0, self.l1, self.l2, self.l3)
    }

    /// An element is determined by its value: two elements of the same value
    /// have the same limbs.
    pub proof fn lemma_value_determines(self, other: FieldElement)
        requires
            self.value() == other.value(),
        ensures
            self == other,
    {
        let b = limb_base() as int;
        let hi = self.l1 as int + b * (self.l2 as int + b * (self.l3 as int));
        let other_hi = other.l1 as int + b * (other.l2 as int + b * (other.l3 as int));
        assert(self.l0 as int + b * hi == other.l0 as int + b * other_hi);
        lemma_limb_split(self.l0, hi, other.l0, other_hi);
        let top = self.l2 as int + b * (self.l3 as int);
        let other_top = other.l2 as int + b * (other.l3 as int);
        lemma_limb_split(self.l1, top, other.l1, other_top);
        lemma_limb_split(self.l2, self.l3 as int, other.l2, other.l3 as int);
    }

    /// The zero element.
    pub fn zero() -> (r: FieldElement)
        ensures
            r.wf(),
            r.value() == 0,
    {
        FieldElement { l0: 0, l1: 0, l2: 0, l3: 0 }
    }

    /// The element that stands for a 64-bit number.
    pub fn from_u64(x: u64) -> (r: FieldElement)
        ensures
            r.wf(),
            r.value() == x as nat,
    {
        FieldElement { l0: x, l1: 0, l2: 0, l3: 0 }
    }

    /// The four limbs of the element, least significant first.
    pub fn limbs(&self) -> (r: (u64, u64, u64, u64))
        ensures
            r == self.spec_limbs(),
            limbs_value(r.0, r.1, r.2, r.3) == self.value(),
    {
        (self.l0, self.l1, self.l2, self.l3)
    }

    /// Appends one decimal digit: ten times the element plus `digit`, where
    /// that is still below the field's order.
    fn push_digit(&self, digit: u64) -> (r: Option<FieldElement>)
        requires
            self.wf(),
            digit <= 9,
        ensures
            r is Some <==> 10 * self.value() + (digit as nat) < field_modulus(),
            r matches Some(e) ==> e.wf() && e.value() == 10 * self.value() + digit as nat,
    {
        let s0 = limb_times_ten(self.l0, digit);
        let s1 = limb_times_ten(self.l1, s0.carry);
        let s2 = limb_times_ten(self.l2, s1.carry);
        let s3 = limb_times_ten(self.l3, s2.carry);
        proof {
            let b = limb_base();
            assert(limbs_value(s0.limb, s1.limb, s2.limb, s3.limb) + b * (b * (b * (b * (
            s3.carry as nat)))) == 10 * self.value() + digit as nat) by {
                assert(b == 0x1_0000_0000_0000_0000);
            }
        }
        if s3.carry != 0 {
            None
        } else if limbs_below_modulus(s0.limb, s1.limb, s2.limb, s3.limb) {
            Some(FieldElement { l0: s0.limb, l1: s1.limb, l2: s2.limb, l3: s3.limb })
        } else {
            None
        }
    }

    /// Reads a field element from decimal text.
    ///
    /// The text is accepted exactly when it is a non-empty run of ASCII digits
    /// whose value is below the field's order; the element then has that value.
    pub fn from_decimal(text: &str) -> (r: Option<FieldElement>)
        ensures
            r is Some <==> is_field_decimal(text@),
            r matches Some(e) ==> e.wf() && e.value() == decimal_value(text@),
    {
        if !text.is_ascii() {
            proof {
                if is_decimal(text@) {
                    assert forall|i: int| 0 <= i < text@.len() implies '\0'
                        <= #[trigger] text@[i] <= '\u{7f}' by {
                        assert(is_digit(text@[i]));
                    }
                    assert(is_ascii_chars(text@));
                }
            }
            return None;
        }
        proof {
            is_ascii_spec_bytes(text);
        }
        let bytes = text.as_bytes();
        let n = bytes.len();
        if n == 0 {
            return None;
        }
        let mut acc = FieldElement::zero();
        let mut i: usize = 0;
        while i < n
            invariant
                0 <= i <= n,
                n == text@.len(),
                n == bytes@.len(),
                is_ascii_chars(text@),
                forall|j: int| 0 <= j < n ==> bytes@[j] == text@[j] as u8,
                acc.wf(),
                acc.value() == decimal_value(text@.take(i as int)),
                forall|j: int| 0 <= j < i ==> is_digit(#[trigger] text@[j]),
            decreases n - i,
        {
            let b = bytes[i];
            assert(b == text@[i as int] as u8);
            assert('\0' <= text@[i as int] <= '\u{7f}');
            if b < 48 || b > 57 {
                assert(!is_digit(text@[i as int]));
                return None;
            }
            assert(is_digit(text@[i as int]));
            let digit: u64 = (b - 48) as u64;
            proof {
                lemma_prefix_value_step(text@, i as int);
                lemma_prefix_value_bounded(text@, i as int + 1);
            }
            match acc.push_digit(digit) {
                None => {
                    return None;
                },
                Some(next) => {
                    acc = next;
                },
            }
            i = i + 1;
        }
        assert(text@.take(n as int) =~= text@);
        Some(acc)
    }
}

} // verus!
