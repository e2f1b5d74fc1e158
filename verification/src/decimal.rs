//! Non-negative decimal numbers with six fractional digits.

use vstd::prelude::*;

verus! {

/// How many millionths make one whole.
pub const MICROS_PER_UNIT: u64 = 1_000_000;

/// A non-negative decimal number, held as a count of millionths.
///
/// `Decimal { micros: 1_300_000 }` is the number 1.3.
#[derive(Clone, Copy, Debug, PartialEq, Eq, Structural)]
pub struct Decimal {
    /// The number, in millionths.
    pub micros: u64,
}

impl View for Decimal {
    type V = nat;

    /// The number in millionths, as a mathematical integer.
    open spec fn view(&self) -> nat {
        self.micros as nat
    }
}

impl Decimal {
    /// The decimal that is `micros` millionths.
    pub fn from_micros(micros: u64) -> (d: Decimal)
        ensures
            d.micros == micros,
            d@ == micros,
    {
        Decimal { micros }
    }

    /// The number one.
    pub fn one() -> (d: Decimal)
        ensures
            d@ == MICROS_PER_UNIT,
    {
        Decimal { micros: MICROS_PER_UNIT }
    }
}

} // verus!
