//! Shapes over any number type that can be multiplied with itself.
//!
//! The area keeps the type of the dimensions: nothing is converted, and no
//! constant of another type enters the product.

use std::ops::Mul;
use vstd::prelude::*;
use vstd::std_specs::ops::MulSpec;

verus! {

/// A shape whose area is a value of the number type `T`.
pub trait GenericShape<T> {
    /// Whether `T`'s multiplication is known to compute what its
    /// specification says.
    spec fn obeys_area_spec() -> bool;

    /// Whether the area can be evaluated: the product that it takes is
    /// allowed for `T`.
    spec fn area_req(&self) -> bool;

    /// The area, as `T`'s multiplication defines it.
    spec fn area_spec(&self) -> T;

    /// Evaluates the area.
    fn area(&self) -> (a: T)
        requires
            self.area_req(),
        ensures
            Self::obeys_area_spec() ==> a == self.area_spec(),
    ;
}

/// A rectangle with sides `x` and `y`.
#[derive(Debug)]
pub struct Rectangle<T> {
    pub x: T,
    pub y: T,
}

/// A circle of the given radius.
#[derive(Debug)]
pub struct Circle<T> {
    pub radius: T,
}

impl<T: Mul<Output = T> + Copy> GenericShape<T> for Rectangle<T> {
    open spec fn obeys_area_spec() -> bool {
        T::obeys_mul_spec()
    }

    open spec fn area_req(&self) -> bool {
        self.x.mul_req(self.y)
    }

    open spec fn area_spec(&self) -> T {
        self.x.mul_spec(self.y)
    }

    /// The product of the two sides.
    fn area(&self) -> (a: T) {
        self.x * self.y
    }
}

impl<T: Mul<Output = T> + Copy> GenericShape<T> for Circle<T> {
    open spec fn obeys_area_spec() -> bool {
        T::obeys_mul_spec()
    }

    open spec fn area_req(&self) -> bool {
        self.radius.mul_req(self.radius)
    }

    open spec fn area_spec(&self) -> T {
        self.radius.mul_spec(self.radius)
    }

    /// The square of the radius. No approximation of pi is applied: a
    /// constant of a fixed type cannot be multiplied with an arbitrary `T`.
    fn area(&self) -> (a: T) {
        self.radius * self.radius
    }
}

/// Over the 32-bit signed integers the area of a rectangle is the integer
/// product of its sides, and it can be evaluated whenever that product is a
/// 32-bit signed integer itself.
pub proof fn lemma_rectangle_area_i32(x: i32, y: i32)
    requires
        i32::MIN <= x * y <= i32::MAX,
    ensures
        Rectangle::<i32>::obeys_area_spec(),
        (Rectangle { x, y }).area_req(),
        (Rectangle { x, y }).area_spec() == x * y,
{
}

/// Over the 32-bit signed integers the area of a circle is the square of its
/// radius, and it can be evaluated whenever that square is a 32-bit signed
/// integer itself.
pub proof fn lemma_circle_area_i32(radius: i32)
    requires
        radius * radius <= i32::MAX,
    ensures
        Circle::<i32>::obeys_area_spec(),
        (Circle { radius }).area_req(),
        (Circle { radius }).area_spec() == radius * radius,
{
    assert(0 <= radius * radius) by (nonlinear_arith);
}

} // verus!
