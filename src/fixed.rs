use vstd::prelude::*;

use vstd::std_specs::cmp::PartialEqSpec;

verus! {

/// An equality constraint: variable `id` must equal `value`.
#[derive(Debug, Clone, Copy)]
pub struct Fixed<V> {
    pub id: usize,
    pub value: V,
}

/// Why a value fails a fixed constraint.
#[derive(Debug)]
pub enum FixedCheckError<V> {
    NotEqual { fixed: Fixed<V>, value: V },
}

/// The outcome of checking a value against a fixed constraint.
#[derive(Debug)]
pub enum FixedCheckResult<V> {
    Satisfied,
    Violated(FixedCheckError<V>),
}

impl<V: PartialEq + PartialEqSpec + Copy> Fixed<V> {
    /// The outcome of checking `val`: satisfied exactly when it equals the
    /// fixed value.
    pub open spec fn check_spec(self, val: V) -> FixedCheckResult<V> {
        if self.value.eq_spec(&val) {
            FixedCheckResult::Satisfied
        } else {
            FixedCheckResult::Violated(FixedCheckError::NotEqual { fixed: self, value: val })
        }
    }

    pub fn new(id: usize, val: V) -> (r: Self)
        ensures
            r == (Fixed { id, value: val }),
    {
        Fixed { id, value: val }
    }

    /// Checks `val` for equality with the fixed value.
    pub fn is_in(&self, val: &V) -> (r: FixedCheckResult<V>)
        requires
            V::obeys_eq_spec(),
        ensures
            r == self.check_spec(*val),
    {
        if self.value.eq(val) {
            FixedCheckResult::Satisfied
        } else {
            FixedCheckResult::Violated(FixedCheckError::NotEqual { fixed: *self, value: *val })
        }
    }
}


/// A fixed constraint on `i64` is satisfied exactly by its own value; any
/// other value is reported as not equal, with the constraint and the value.
pub proof fn lemma_fixed_equality(f: Fixed<i64>, value: i64)
    ensures
        f.check_spec(value) is Satisfied <==> value == f.value,
        value != f.value ==> f.check_spec(value) == FixedCheckResult::Violated(
            FixedCheckError::NotEqual { fixed: f, value },
        ),
{
}

} // verus!
