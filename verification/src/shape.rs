//! A closed family of plane shapes and the evaluation of their area.
//!
//! All arithmetic is exact. Side lengths are whole units; a circle's radius
//! is held in thousandths of a unit, and pi is the fixed three-decimal
//! approximation 3.141. An area then is a whole number of billionths of a
//! square unit, which is what [`Area`] holds.

use vstd::prelude::*;

verus! {

/// The number of billionths in one square unit.
pub const BILLION: u64 = 1_000_000_000;

/// The fixed approximation of pi, in thousandths: 3.141.
pub const PI_THOUSANDTHS: u64 = 3141;

/// A shape: exactly one of the three kinds, with that kind's dimensions.
#[derive(Clone, Copy, Debug, PartialEq, Eq, Structural)]
pub enum Shape {
    /// A rectangle, its sides in whole units.
    Rectangle { width: u32, height: u32 },
    /// A square of the given side, in whole units.
    Square(u32),
    /// A circle, its radius in thousandths of a unit.
    Circle { radius_milli: u32 },
}

/// An area in square units, as a whole part and a fraction in billionths.
#[derive(Clone, Copy, Debug, PartialEq, Eq, Structural)]
pub struct Area {
    /// The whole square units: the area rounded down.
    pub whole: u64,
    /// What is left over, in billionths of a square unit.
    pub billionths: u32,
}

impl Area {
    /// The fraction is a proper one: less than a whole square unit.
    pub open spec fn well_formed(&self) -> bool {
        self.billionths < BILLION
    }
}

impl View for Area {
    type V = nat;

    /// The area as a number of billionths of a square unit.
    open spec fn view(&self) -> nat {
        (self.whole * BILLION + self.billionths) as nat
    }
}

/// The area of a shape, in billionths of a square unit.
pub open spec fn area_billionths(shape: Shape) -> nat {
    match shape {
        Shape::Rectangle { width, height } => (width * height * BILLION) as nat,
        Shape::Square(side) => (side * side * BILLION) as nat,
        Shape::Circle { radius_milli } => (PI_THOUSANDTHS * (radius_milli * radius_milli)) as nat,
    }
}

/// The product of two 32-bit numbers fits in 64 bits.
proof fn lemma_product_fits(a: u32, b: u32)
    ensures
        0 <= a * b <= 0xFFFF_FFFE_0000_0001,
{
    assert(0 <= a * b <= 0xFFFF_FFFF * 0xFFFF_FFFF) by (nonlinear_arith)
        requires
            0 <= a <= 0xFFFF_FFFF,
            0 <= b <= 0xFFFF_FFFF,
    ;
}

/// Every shape has an area: it is of one of the three kinds, each kind has
/// its formula, and the result is one that an [`Area`] can hold.
pub proof fn lemma_every_shape_has_an_area(shape: Shape)
    ensures
        shape is Rectangle || shape is Square || shape is Circle,
        exists|a: Area| a.well_formed() && a@ == area_billionths(shape),
{
    let total: nat = area_billionths(shape);
    match shape {
        Shape::Rectangle { width, height } => {
            lemma_product_fits(width, height);
        },
        Shape::Square(side) => {
            lemma_product_fits(side, side);
        },
        Shape::Circle { radius_milli } => {
            lemma_product_fits(radius_milli, radius_milli);
        },
    }
    let a = Area {
        whole: (total / BILLION as nat) as u64,
        billionths: (total % BILLION as nat) as u32,
    };
    assert(a.well_formed() && a@ == total);
}

/// Evaluates the area of `shape`.
///
/// The kind of the shape alone selects the formula, and every kind has one:
/// a rectangle's area is width times height and a square's is its side
/// squared, both whole numbers; a circle's is 3.141 times the square of its
/// radius. No shape is refused and no result is rounded.
pub fn area(shape: &Shape) -> (a: Area)
    ensures
        a.well_formed(),
        a@ == area_billionths(*shape),
        match *shape {
            Shape::Rectangle { width, height } => a.whole == width * height && a.billionths == 0,
            Shape::Square(side) => a.whole == side * side && a.billionths == 0,
            Shape::Circle { radius_milli } => a@ == PI_THOUSANDTHS * (radius_milli * radius_milli),
        },
{
    match *shape {
        Shape::Rectangle { width, height } => {
            proof {
                lemma_product_fits(width, height);
            }
            Area { whole: width as u64 * height as u64, billionths: 0 }
        },
        Shape::Square(side) => {
            proof {
                lemma_product_fits(side, side);
            }
            Area { whole: side as u64 * side as u64, billionths: 0 }
        },
        Shape::Circle { radius_milli } => {
            proof {
                lemma_product_fits(radius_milli, radius_milli);
            }
            let squared: u64 = radius_milli as u64 * radius_milli as u64;
            let total: u128 = PI_THOUSANDTHS as u128 * squared as u128;
            let whole: u128 = total / BILLION as u128;
            let rest: u128 = total % BILLION as u128;
            Area { whole: whole as u64, billionths: rest as u32 }
        },
    }
}

} // verus!
