//! Fixed-point numeric representation: an integer mantissa together with an
//! explicit decimal scale.

use vstd::prelude::*;

verus! {

/// A fixed-point number. The mathematical value is
/// `value / 10^scale`; the mantissa and the scale are stored exactly,
/// no rounding is ever involved.
#[derive(Clone, Copy, Debug, PartialEq, Eq)]
pub struct Numeric {
    /// The integer mantissa.
    pub value: i128,
    /// How many implied decimal digits sit to the right of the point.
    pub scale: u8,
}

impl Numeric {
    /// Creates a new fixed-point number from a mantissa and a scale.
    pub fn new_with_scale(value: i128, scale: u8) -> (n: Numeric)
        ensures
            n.value == value,
            n.scale == scale,
    {
        Numeric { value, scale }
    }

    /// The integer mantissa.
    pub fn value(&self) -> (v: i128)
        ensures
            v == self.value,
    {
        self.value
    }

    /// The decimal scale.
    pub fn scale(&self) -> (s: u8)
        ensures
            s == self.scale,
    {
        self.scale
    }
}

} // verus!
