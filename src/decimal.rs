use vstd::prelude::*;

verus! {

/// Number of indivisible units ("attos") in one whole unit of an amount.
pub const SCALE: i128 = 1_000_000_000_000_000_000;

/// A fixed-point amount with eighteen decimal places, held as a count of
/// attos (`10^-18` of a unit).
#[derive(Clone, Copy, Debug, PartialEq, Eq, Structural)]
pub struct Decimal {
    pub attos: i128,
}

impl View for Decimal {
    type V = int;

    /// The amount measured in attos.
    open spec fn view(&self) -> int {
        self.attos as int
    }
}

impl Decimal {
    pub fn zero() -> (r: Decimal)
        ensures
            r@ == 0,
    {
        Decimal { attos: 0 }
    }

    pub fn from_attos(attos: i128) -> (r: Decimal)
        ensures
            r@ == attos,
    {
        Decimal { attos }
    }

    /// The whole number `n` as an amount.
    pub fn from_int(n: i64) -> (r: Decimal)
        ensures
            r@ == n * SCALE,
    {
        proof {
            assert(-0x8000_0000_0000_0000 * SCALE <= n * SCALE <= 0x7fff_ffff_ffff_ffff * SCALE)
                by (nonlinear_arith)
                requires -0x8000_0000_0000_0000 <= n <= 0x7fff_ffff_ffff_ffff;
        }
        Decimal { attos: (n as i128) * SCALE }
    }

    pub fn attos(&self) -> (r: i128)
        ensures
            r == self.attos,
    {
        self.attos
    }
}

} // verus!
