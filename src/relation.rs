use vstd::prelude::*;

use std::ops::{Add, Mul};
use vstd::std_specs::cmp::PartialOrdSpec;
use vstd::std_specs::ops::{AddSpec, MulSpec};

use crate::compare::Compare;

verus! {

/// A linear relation between two variables:
/// `(left * mul + off) cmp right`, where `mul` and `off` may be absent.
#[derive(Debug, Clone, Copy)]
pub struct Linear<M, O> {
    /// id of the left variable
    pub left: usize,
    /// id of the right variable
    pub right: usize,
    /// comparison
    pub cmp: Compare,
    /// multiplier
    pub mul: Option<M>,
    /// offset
    pub off: Option<O>,
}

/// Why a pair of values fails a linear relation. Both carry the values as
/// given, before scaling and shifting.
#[derive(Debug)]
pub enum LinearCheckError<T, M, O> {
    NotIn {
        formula: Linear<M, O>,
        /// value of left
        left: T,
        /// value of right
        right: T,
    },
    CannotCompare {
        formula: Linear<M, O>,
        /// value of left
        left: T,
        /// value of right
        right: T,
    },
}

/// The outcome of checking a pair of values against a linear relation.
#[derive(Debug)]
pub enum LinearCheckResult<T, M, O> {
    Satisfied,
    Violated(LinearCheckError<T, M, O>),
}

impl<M: Copy, O: Copy> Linear<M, O> {
    pub fn new(left: usize, right: usize, mul: Option<M>, off: Option<O>, cmp: Compare) -> (r: Self)
        ensures
            r == (Linear { left, right, cmp, mul, off }),
    {
        Linear { left, right, cmp, mul, off }
    }

    /// `left` multiplied by the multiplier, if there is one.
    pub open spec fn scaled<T>(self, left: T) -> T where
        T: Mul<M, Output = T> + MulSpec<M>,
     {
        match self.mul {
            Some(m) => left.mul_spec(m),
            None => left,
        }
    }

    /// `left` multiplied by the multiplier and then shifted by the offset,
    /// each where present.
    pub open spec fn adjusted<T>(self, left: T) -> T where
        T: Mul<M, Output = T> + MulSpec<M> + Add<O, Output = T> + AddSpec<O>,
     {
        match self.off {
            Some(o) => self.scaled(left).add_spec(o),
            None => self.scaled(left),
        }
    }

    /// Scaling and shifting `left` stay within what the value type can hold.
    pub open spec fn adjust_defined<T>(self, left: T) -> bool where
        T: Mul<M, Output = T> + MulSpec<M> + Add<O, Output = T> + AddSpec<O>,
     {
        &&& (self.mul matches Some(m) ==> left.mul_req(m))
        &&& (self.off matches Some(o) ==> self.scaled(left).add_req(o))
    }

    /// The outcome of checking `left` and `right`: satisfied exactly when the
    /// ordering of the adjusted left value against `right` meets `cmp`.
    pub open spec fn check_spec<T>(self, left: T, right: T) -> LinearCheckResult<T, M, O> where
        T: Mul<M, Output = T> + MulSpec<M> + Add<O, Output = T> + AddSpec<O> + PartialOrdSpec,
     {
        match self.adjusted(left).partial_cmp_spec(&right) {
            None => LinearCheckResult::Violated(
                LinearCheckError::CannotCompare { formula: self, left, right },
            ),
            Some(o) => if self.cmp.accepts(o) {
                LinearCheckResult::Satisfied
            } else {
                LinearCheckResult::Violated(LinearCheckError::NotIn { formula: self, left, right })
            },
        }
    }

    /// Checks the pair `left`, `right` against this relation.
    pub fn is_in<T>(&self, left: &T, right: &T) -> (r: LinearCheckResult<T, M, O>) where
        T: Copy + Mul<M, Output = T> + MulSpec<M> + Add<O, Output = T> + AddSpec<O> + PartialOrd
            + PartialOrdSpec,
        requires
            T::obeys_mul_spec(),
            T::obeys_add_spec(),
            T::obeys_partial_cmp_spec(),
            self.adjust_defined(*left),
        ensures
            r == self.check_spec(*left, *right),
    {
        let mut left_one = *left;
        if let Some(mul) = self.mul {
            left_one = left_one * mul;
        }
        if let Some(add) = self.off {
            left_one = left_one + add;
        }
        match left_one.partial_cmp(right) {
            Some(cmp_result) => {
                if self.cmp.is_in(cmp_result) {
                    LinearCheckResult::Satisfied
                } else {
                    LinearCheckResult::Violated(
                        LinearCheckError::NotIn { formula: *self, left: *left, right: *right },
                    )
                }
            },
            None => LinearCheckResult::Violated(
                LinearCheckError::CannotCompare { formula: *self, left: *left, right: *right },
            ),
        }
    }
}


/// Without multiplier and offset, a `<=` relation on `i64` holds exactly when
/// the left value is at most the right value.
pub proof fn lemma_plain_at_most(l: Linear<i64, i64>, left: i64, right: i64)
    requires
        l.mul is None,
        l.off is None,
        l.cmp == Compare::LTE,
    ensures
        l.check_spec(left, right) is Satisfied <==> left <= right,
{
}

/// With multiplier `m` and offset `o`, a `<=` relation on `i64` holds exactly
/// when `left * m + o <= right`: the multiplication comes first.
pub proof fn lemma_affine_at_most(l: Linear<i64, i64>, m: i64, o: i64, left: i64, right: i64)
    requires
        l.mul == Some(m),
        l.off == Some(o),
        l.cmp == Compare::LTE,
        l.adjust_defined(left),
    ensures
        l.check_spec(left, right) is Satisfied <==> left * m + o <= right,
{
}

} // verus!
