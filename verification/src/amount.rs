//! Fixed-point numbers for prices, totals, stock levels and quantities.

use vstd::prelude::*;

verus! {

/// A decimal number kept as a whole count of thousandths.
///
/// `Decimal { thousandths: 2500 }` stands for 2.5. Nothing finer than a
/// thousandth is kept: a number that comes from outside is rounded to the
/// nearest thousandth before it gets here, so an amount below half a
/// thousandth arrives as zero.
#[derive(Clone, Copy, Debug, PartialEq, Eq, Structural)]
pub struct Decimal {
    pub thousandths: i64,
}

/// Thousandths in one whole unit.
pub const SCALE: i64 = 1000;

/// Whether a shop sells in whole units only or also in fractions of a unit.
#[derive(Clone, Copy, Debug, PartialEq, Eq, Structural)]
pub enum QuantityKind {
    Whole,
    Fractional,
}

/// The quantity that a cart line requests, in thousandths.
///
/// A missing quantity, one that is not positive, and (for whole-unit shops)
/// one with a fractional part all count as zero. So does a quantity too
/// fine to be kept, which arrives as zero.
pub open spec fn requested_quantity(raw: Option<Decimal>, kind: QuantityKind) -> int {
    match raw {
        Some(d) => if d.thousandths <= 0 {
            0
        } else if kind == QuantityKind::Whole && d.thousandths % SCALE != 0 {
            0
        } else {
            d.thousandths as int
        },
        None => 0,
    }
}

impl Decimal {
    /// The number zero.
    pub fn zero() -> (r: Decimal)
        ensures
            r.thousandths == 0,
    {
        Decimal { thousandths: 0 }
    }
}

/// Normalises the quantity of a cart line: see [`requested_quantity`].
pub fn normalize_quantity(raw: Option<Decimal>, kind: QuantityKind) -> (r: Decimal)
    ensures
        r.thousandths == requested_quantity(raw, kind),
        r.thousandths >= 0,
{
    match raw {
        Some(d) => {
            if d.thousandths <= 0 {
                Decimal::zero()
            } else {
                match kind {
                    QuantityKind::Whole => {
                        if d.thousandths % SCALE != 0 {
                            Decimal::zero()
                        } else {
                            d
                        }
                    },
                    QuantityKind::Fractional => d,
                }
            }
        },
        None => Decimal::zero(),
    }
}

} // verus!
