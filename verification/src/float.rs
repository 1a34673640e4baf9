//! Single-precision numbers, carried by their bit pattern.
use vstd::prelude::*;

verus! {

/// A single-precision number, held as its IEEE 754 bit pattern.
///
/// Nothing in this crate computes with these numbers. They are settings and
/// buffers on their way to or from the runtime, so the bits are what matters.
#[derive(Debug, Clone, Copy)]
pub struct F32 {
    /// Sign, exponent and fraction, from the highest bit down.
    pub bits: u32,
}

/// The bit pattern of positive infinity. A magnitude above it is not a number.
pub const INFINITY_BITS: u32 = 0x7f80_0000;

/// One past the largest magnitude, which is where the sign bit sits.
pub const SIGN_BIT: u32 = 0x8000_0000;

impl F32 {
    /// The bits below the sign.
    pub open spec fn magnitude(self) -> int {
        (self.bits % SIGN_BIT) as int
    }

    /// Whether the pattern stands for no number at all.
    pub open spec fn not_a_number(self) -> bool {
        self.magnitude() > INFINITY_BITS
    }

    /// When two patterns stand for equal numbers: neither is "not a number",
    /// and either the bits agree or both are a zero, whatever its sign.
    pub open spec fn equals(self, other: F32) -> bool {
        &&& !self.not_a_number()
        &&& !other.not_a_number()
        &&& self.bits == other.bits || (self.magnitude() == 0 && other.magnitude() == 0)
    }

    /// The number with this bit pattern.
    pub fn from_bits(bits: u32) -> (r: F32)
        ensures
            r.bits == bits,
    {
        F32 { bits }
    }

    /// The bit pattern of this number.
    pub fn to_bits(self) -> (r: u32)
        ensures
            r == self.bits,
    {
        self.bits
    }
}

impl PartialEq for F32 {
    fn eq(&self, other: &F32) -> (r: bool) {
        let a: u32 = self.bits % SIGN_BIT;
        let b: u32 = other.bits % SIGN_BIT;
        a <= INFINITY_BITS && b <= INFINITY_BITS && (self.bits == other.bits || (a == 0 && b == 0))
    }
}

impl vstd::std_specs::cmp::PartialEqSpecImpl for F32 {
    open spec fn obeys_eq_spec() -> bool {
        true
    }

    open spec fn eq_spec(&self, other: &F32) -> bool {
        self.equals(*other)
    }
}

/// Numbers compare as IEEE 754 has it. A pattern that is not a number equals
/// nothing, the two zeros equal each other, and any other pattern equals itself
/// alone.
pub proof fn equality_is_that_of_numbers(a: F32, b: F32)
    ensures
        a.equals(b) <==> b.equals(a),
        a.equals(a) <==> a.bits <= 0x7f80_0000 || 0x8000_0000 <= a.bits <= 0xff80_0000,
        a.equals(b) && a.bits != b.bits <==> {
            ||| a.bits == 0 && b.bits == 0x8000_0000
            ||| a.bits == 0x8000_0000 && b.bits == 0
        },
{
}

} // verus!
