use vstd::prelude::*;

use std::ops::{Add, Mul};
use vstd::std_specs::cmp::{PartialEqSpec, PartialOrdSpec};
use vstd::std_specs::convert::FromSpecImpl;
use vstd::std_specs::ops::{AddSpec, MulSpec};

use crate::boundary::{Boundary, BoundaryCheckError, BoundaryCheckResult};
use crate::fixed::{Fixed, FixedCheckError, FixedCheckResult};
use crate::relation::{Linear, LinearCheckError, LinearCheckResult};

verus! {

/// A constraint on one variable.
#[derive(Debug)]
pub enum SingleConstrain<T> {
    Boundary(Boundary<T>),
    Fixed(Fixed<T>),
}

/// A constraint on an ordered pair of variables.
#[derive(Debug)]
pub enum DoubleConstrain<M, O> {
    LinearRelation(Linear<M, O>),
}

/// Why a value fails a single-variable constraint.
#[derive(Debug)]
pub enum SingleConstrainCheckError<T> {
    BoundaryErr(BoundaryCheckError<T>),
    FixedErr(FixedCheckError<T>),
}

/// The outcome of checking a value against a single-variable constraint.
#[derive(Debug)]
pub enum SingleConstrainCheckResult<T> {
    Satisfied,
    Violated(SingleConstrainCheckError<T>),
}

/// Why a pair of values fails a two-variable constraint.
#[derive(Debug)]
pub enum DoubleConstrainCheckError<T, M, O> {
    Linear(LinearCheckError<T, M, O>),
}

/// The outcome of checking a pair of values against a two-variable constraint.
#[derive(Debug)]
pub enum DoubleConstrainCheckResult<T, M, O> {
    Satisfied,
    Violated(DoubleConstrainCheckError<T, M, O>),
}

impl<T> From<BoundaryCheckResult<T>> for SingleConstrainCheckResult<T> {
    fn from(value: BoundaryCheckResult<T>) -> (r: Self) {
        match value {
            BoundaryCheckResult::Satisfied => SingleConstrainCheckResult::Satisfied,
            BoundaryCheckResult::Violated(e) => SingleConstrainCheckResult::Violated(
                SingleConstrainCheckError::BoundaryErr(e),
            ),
        }
    }
}

impl<T> FromSpecImpl<BoundaryCheckResult<T>> for SingleConstrainCheckResult<T> {
    open spec fn obeys_from_spec() -> bool {
        true
    }

    open spec fn from_spec(value: BoundaryCheckResult<T>) -> Self {
        match value {
            BoundaryCheckResult::Satisfied => SingleConstrainCheckResult::Satisfied,
            BoundaryCheckResult::Violated(e) => SingleConstrainCheckResult::Violated(
                SingleConstrainCheckError::BoundaryErr(e),
            ),
        }
    }
}

impl<T> From<FixedCheckResult<T>> for SingleConstrainCheckResult<T> {
    fn from(value: FixedCheckResult<T>) -> (r: Self) {
        match value {
            FixedCheckResult::Satisfied => SingleConstrainCheckResult::Satisfied,
            FixedCheckResult::Violated(e) => SingleConstrainCheckResult::Violated(
                SingleConstrainCheckError::FixedErr(e),
            ),
        }
    }
}

impl<T> FromSpecImpl<FixedCheckResult<T>> for SingleConstrainCheckResult<T> {
    open spec fn obeys_from_spec() -> bool {
        true
    }

    open spec fn from_spec(value: FixedCheckResult<T>) -> Self {
        match value {
            FixedCheckResult::Satisfied => SingleConstrainCheckResult::Satisfied,
            FixedCheckResult::Violated(e) => SingleConstrainCheckResult::Violated(
                SingleConstrainCheckError::FixedErr(e),
            ),
        }
    }
}

impl<T, M, O> From<LinearCheckResult<T, M, O>> for DoubleConstrainCheckResult<T, M, O> {
    fn from(value: LinearCheckResult<T, M, O>) -> (r: Self) {
        match value {
            LinearCheckResult::Satisfied => DoubleConstrainCheckResult::Satisfied,
            LinearCheckResult::Violated(e) => DoubleConstrainCheckResult::Violated(
                DoubleConstrainCheckError::Linear(e),
            ),
        }
    }
}

impl<T, M, O> FromSpecImpl<LinearCheckResult<T, M, O>> for DoubleConstrainCheckResult<T, M, O> {
    open spec fn obeys_from_spec() -> bool {
        true
    }

    open spec fn from_spec(value: LinearCheckResult<T, M, O>) -> Self {
        match value {
            LinearCheckResult::Satisfied => DoubleConstrainCheckResult::Satisfied,
            LinearCheckResult::Violated(e) => DoubleConstrainCheckResult::Violated(
                DoubleConstrainCheckError::Linear(e),
            ),
        }
    }
}

impl<T: PartialOrd + PartialOrdSpec + PartialEqSpec + Copy> SingleConstrain<T> {
    /// The violation of this constraint by `value`, if any.
    pub open spec fn violation(self, value: T) -> Option<SingleConstrainCheckError<T>> {
        match self {
            SingleConstrain::Boundary(b) => match b.check_spec(value) {
                BoundaryCheckResult::Satisfied => None,
                BoundaryCheckResult::Violated(e) => Some(SingleConstrainCheckError::BoundaryErr(e)),
            },
            SingleConstrain::Fixed(f) => match f.check_spec(value) {
                FixedCheckResult::Satisfied => None,
                FixedCheckResult::Violated(e) => Some(SingleConstrainCheckError::FixedErr(e)),
            },
        }
    }

    /// Checks `value` against this constraint.
    pub fn check(&self, value: &T) -> (r: SingleConstrainCheckResult<T>)
        requires
            T::obeys_partial_cmp_spec(),
            T::obeys_eq_spec(),
        ensures
            match self.violation(*value) {
                Some(e) => r == SingleConstrainCheckResult::Violated(e),
                None => r is Satisfied,
            },
    {
        match self {
            SingleConstrain::Boundary(b) => SingleConstrainCheckResult::from(b.is_in(*value)),
            SingleConstrain::Fixed(f) => SingleConstrainCheckResult::from(f.is_in(value)),
        }
    }
}

impl<M: Copy, O: Copy> DoubleConstrain<M, O> {
    /// Scaling and shifting `left` stay within what the value type can hold.
    pub open spec fn adjust_defined<T>(self, left: T) -> bool where
        T: Mul<M, Output = T> + MulSpec<M> + Add<O, Output = T> + AddSpec<O>,
     {
        match self {
            DoubleConstrain::LinearRelation(l) => l.adjust_defined(left),
        }
    }

    /// The violation of this constraint by the pair `left`, `right`, if any.
    pub open spec fn violation<T>(self, left: T, right: T) -> Option<
        DoubleConstrainCheckError<T, M, O>,
    > where
        T: Mul<M, Output = T> + MulSpec<M> + Add<O, Output = T> + AddSpec<O> + PartialOrdSpec,
     {
        match self {
            DoubleConstrain::LinearRelation(l) => match l.check_spec(left, right) {
                LinearCheckResult::Satisfied => None,
                LinearCheckResult::Violated(e) => Some(DoubleConstrainCheckError::Linear(e)),
            },
        }
    }

    /// Checks the pair `left`, `right` against this constraint.
    pub fn check<T>(&self, left: &T, right: &T) -> (r: DoubleConstrainCheckResult<T, M, O>) where
        T: Copy + Mul<M, Output = T> + MulSpec<M> + Add<O, Output = T> + AddSpec<O> + PartialOrd
            + PartialOrdSpec,
        requires
            T::obeys_mul_spec(),
            T::obeys_add_spec(),
            T::obeys_partial_cmp_spec(),
            self.adjust_defined(*left),
        ensures
            match self.violation(*left, *right) {
                Some(e) => r == DoubleConstrainCheckResult::Violated(e),
                None => r is Satisfied,
            },
    {
        match self {
            DoubleConstrain::LinearRelation(l) => DoubleConstrainCheckResult::from(
                l.is_in(left, right),
            ),
        }
    }
}

} // verus!
