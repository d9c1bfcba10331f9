//! Exact arithmetic expressions over binary64 constants.
//!
//! The library never rounds. Where it derives a quantity it records how the
//! quantity is computed, operation by operation and in order, and leaves the
//! evaluation in double precision to the caller. Two expressions are equal
//! when they are the same operations on the same constants, and equal
//! expressions have the same value under every arithmetic.

use vstd::prelude::*;

verus! {

/// The pattern of `1.0`.
pub const ONE: u64 = 0x3ff0_0000_0000_0000;

/// The pattern of `2.0`.
pub const TWO: u64 = 0x4000_0000_0000_0000;

/// The pattern of `4.0`.
pub const FOUR: u64 = 0x4010_0000_0000_0000;

/// The pattern of the double nearest to pi, `3.141592653589793`.
pub const PI: u64 = 0x4009_21fb_5444_2d18;

/// An arithmetic on bit patterns: for each operation, the result that it
/// gives for each choice of operands. Double precision as a back end
/// computes it is one such arithmetic, as far as its operations give the same
/// result whenever they are given the same operands.
pub struct Arithmetic {
    pub sum: spec_fn(u64, u64) -> u64,
    pub difference: spec_fn(u64, u64) -> u64,
    pub product: spec_fn(u64, u64) -> u64,
    pub quotient: spec_fn(u64, u64) -> u64,
    pub sqrt: spec_fn(u64) -> u64,
    pub sin: spec_fn(u64) -> u64,
    pub cos: spec_fn(u64) -> u64,
}

/// A quantity, given by the way it is computed.
#[derive(Debug, PartialEq, Eq)]
pub enum Expr {
    /// A binary64 value, by its bit pattern.
    Const(u64),
    /// The first operand plus the second.
    Sum(Box<Expr>, Box<Expr>),
    /// The first operand minus the second.
    Difference(Box<Expr>, Box<Expr>),
    /// The first operand times the second.
    Product(Box<Expr>, Box<Expr>),
    /// The first operand divided by the second.
    Quotient(Box<Expr>, Box<Expr>),
    /// The square root of the operand.
    Sqrt(Box<Expr>),
    /// The sine of the operand, in radians.
    Sin(Box<Expr>),
    /// The cosine of the operand, in radians.
    Cos(Box<Expr>),
}

impl Expr {
    /// The expression that is the value with the given bit pattern.
    pub open spec fn spec_constant(bits: u64) -> Expr {
        Expr::Const(bits)
    }

    /// The expression `a + b`.
    pub open spec fn spec_sum(a: Expr, b: Expr) -> Expr {
        Expr::Sum(Box::new(a), Box::new(b))
    }

    /// The expression `a - b`.
    pub open spec fn spec_difference(a: Expr, b: Expr) -> Expr {
        Expr::Difference(Box::new(a), Box::new(b))
    }

    /// The expression `a * b`.
    pub open spec fn spec_product(a: Expr, b: Expr) -> Expr {
        Expr::Product(Box::new(a), Box::new(b))
    }

    /// The expression `a / b`.
    pub open spec fn spec_quotient(a: Expr, b: Expr) -> Expr {
        Expr::Quotient(Box::new(a), Box::new(b))
    }

    /// The expression of the square root of `a`.
    pub open spec fn spec_sqrt(a: Expr) -> Expr {
        Expr::Sqrt(Box::new(a))
    }

    /// The expression of the sine of `a`.
    pub open spec fn spec_sin(a: Expr) -> Expr {
        Expr::Sin(Box::new(a))
    }

    /// The expression of the cosine of `a`.
    pub open spec fn spec_cos(a: Expr) -> Expr {
        Expr::Cos(Box::new(a))
    }

    /// The expression `2 * pi`, in that order.
    pub open spec fn spec_two_pi() -> Expr {
        Expr::spec_product(Expr::Const(TWO), Expr::Const(PI))
    }

    /// The expression `1 / a`.
    pub open spec fn spec_reciprocal(a: Expr) -> Expr {
        Expr::spec_quotient(Expr::Const(ONE), a)
    }

    /// The value of the expression under an arithmetic: the operands of each
    /// operation are evaluated first, the first operand before the second.
    pub open spec fn value(self, arithmetic: Arithmetic) -> u64
        decreases self,
    {
        match self {
            Expr::Const(bits) => bits,
            Expr::Sum(a, b) => (arithmetic.sum)(a.value(arithmetic), b.value(arithmetic)),
            Expr::Difference(a, b) => (arithmetic.difference)(
                a.value(arithmetic),
                b.value(arithmetic),
            ),
            Expr::Product(a, b) => (arithmetic.product)(a.value(arithmetic), b.value(arithmetic)),
            Expr::Quotient(a, b) => (arithmetic.quotient)(
                a.value(arithmetic),
                b.value(arithmetic),
            ),
            Expr::Sqrt(a) => (arithmetic.sqrt)(a.value(arithmetic)),
            Expr::Sin(a) => (arithmetic.sin)(a.value(arithmetic)),
            Expr::Cos(a) => (arithmetic.cos)(a.value(arithmetic)),
        }
    }

    /// The value with the given bit pattern.
    #[verifier::when_used_as_spec(spec_constant)]
    pub fn constant(bits: u64) -> (r: Expr)
        ensures
            r == Expr::spec_constant(bits),
    {
        Expr::Const(bits)
    }

    /// `a + b`.
    #[verifier::when_used_as_spec(spec_sum)]
    pub fn sum(a: Expr, b: Expr) -> (r: Expr)
        ensures
            r == Expr::spec_sum(a, b),
    {
        Expr::Sum(Box::new(a), Box::new(b))
    }

    /// `a - b`.
    #[verifier::when_used_as_spec(spec_difference)]
    pub fn difference(a: Expr, b: Expr) -> (r: Expr)
        ensures
            r == Expr::spec_difference(a, b),
    {
        Expr::Difference(Box::new(a), Box::new(b))
    }

    /// `a * b`.
    #[verifier::when_used_as_spec(spec_product)]
    pub fn product(a: Expr, b: Expr) -> (r: Expr)
        ensures
            r == Expr::spec_product(a, b),
    {
        Expr::Product(Box::new(a), Box::new(b))
    }

    /// `a / b`.
    #[verifier::when_used_as_spec(spec_quotient)]
    pub fn quotient(a: Expr, b: Expr) -> (r: Expr)
        ensures
            r == Expr::spec_quotient(a, b),
    {
        Expr::Quotient(Box::new(a), Box::new(b))
    }

    /// The square root of `a`.
    #[verifier::when_used_as_spec(spec_sqrt)]
    pub fn sqrt(a: Expr) -> (r: Expr)
        ensures
            r == Expr::spec_sqrt(a),
    {
        Expr::Sqrt(Box::new(a))
    }

    /// The sine of `a`.
    #[verifier::when_used_as_spec(spec_sin)]
    pub fn sin(a: Expr) -> (r: Expr)
        ensures
            r == Expr::spec_sin(a),
    {
        Expr::Sin(Box::new(a))
    }

    /// The cosine of `a`.
    #[verifier::when_used_as_spec(spec_cos)]
    pub fn cos(a: Expr) -> (r: Expr)
        ensures
            r == Expr::spec_cos(a),
    {
        Expr::Cos(Box::new(a))
    }

    /// `2 * pi`.
    #[verifier::when_used_as_spec(spec_two_pi)]
    pub fn two_pi() -> (r: Expr)
        ensures
            r == Expr::spec_two_pi(),
    {
        Expr::product(Expr::Const(TWO), Expr::Const(PI))
    }

    /// `1 / a`.
    #[verifier::when_used_as_spec(spec_reciprocal)]
    pub fn reciprocal(a: Expr) -> (r: Expr)
        ensures
            r == Expr::spec_reciprocal(a),
    {
        Expr::quotient(Expr::Const(ONE), a)
    }

    /// A copy of the expression, operation for operation.
    fn duplicate(&self) -> (r: Expr)
        ensures
            r == *self,
        decreases self,
    {
        match self {
            Expr::Const(bits) => Expr::Const(*bits),
            Expr::Sum(a, b) => Expr::Sum(Box::new(a.duplicate()), Box::new(b.duplicate())),
            Expr::Difference(a, b) => Expr::Difference(
                Box::new(a.duplicate()),
                Box::new(b.duplicate()),
            ),
            Expr::Product(a, b) => Expr::Product(Box::new(a.duplicate()), Box::new(b.duplicate())),
            Expr::Quotient(a, b) => Expr::Quotient(
                Box::new(a.duplicate()),
                Box::new(b.duplicate()),
            ),
            Expr::Sqrt(a) => Expr::Sqrt(Box::new(a.duplicate())),
            Expr::Sin(a) => Expr::Sin(Box::new(a.duplicate())),
            Expr::Cos(a) => Expr::Cos(Box::new(a.duplicate())),
        }
    }
}

impl Clone for Expr {
    fn clone(&self) -> (r: Expr)
        ensures
            r == *self,
    {
        self.duplicate()
    }
}

} // verus!
