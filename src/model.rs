use vstd::prelude::*;

use std::collections::HashMap;

use crate::boundary::{as_bottom, as_top, pair_error, Boundary, BoundaryError, Limit};
use crate::compare::Compare;
use crate::constraints::{
    DoubleConstrain, DoubleConstrainCheckError, DoubleConstrainCheckResult, SingleConstrain,
    SingleConstrainCheckError, SingleConstrainCheckResult,
};
use crate::fixed::Fixed;
use crate::relation::Linear;

verus! {

broadcast use vstd::std_specs::hash::group_hash_axioms;

/// Why a constraint could not be declared in a model.
#[derive(Debug)]
pub enum ModelErrors<T> {
    Boundary(BoundaryError<T>),
}

/// The violations that `value` commits against the constraints `cs`, in the
/// order of the constraints.
pub open spec fn single_violations(cs: Seq<SingleConstrain<i64>>, value: i64) -> Seq<
    SingleConstrainCheckError<i64>,
>
    decreases cs.len(),
{
    if cs.len() == 0 {
        Seq::empty()
    } else {
        let rest = single_violations(cs.drop_last(), value);
        match cs.last().violation(value) {
            Some(e) => rest.push(e),
            None => rest,
        }
    }
}

/// The violations that the pair `left`, `right` commits against the
/// constraints `cs`, in the order of the constraints.
pub open spec fn double_violations(cs: Seq<DoubleConstrain<i64, i64>>, left: i64, right: i64) -> Seq<
    DoubleConstrainCheckError<i64, i64, i64>,
>
    decreases cs.len(),
{
    if cs.len() == 0 {
        Seq::empty()
    } else {
        let rest = double_violations(cs.drop_last(), left, right);
        match cs.last().violation(left, right) {
            Some(e) => rest.push(e),
            None => rest,
        }
    }
}

/// No violation at all is reported as `None`, otherwise all of them.
pub open spec fn outcome<E>(errors: Seq<E>) -> Option<Seq<E>> {
    if errors.len() == 0 {
        None
    } else {
        Some(errors)
    }
}

/// The contents of an optional list of violations.
pub open spec fn errors_view<E>(r: Option<Vec<E>>) -> Option<Seq<E>> {
    match r {
        Some(v) => Some(v@),
        None => None,
    }
}

/// The constraints declared over `i64` variables: single-variable
/// constraints by variable id, two-variable constraints by left id and then
/// right id, each list in the order of declaration.
#[derive(Debug)]
pub struct Model {
    pub single: HashMap<usize, Vec<SingleConstrain<i64>>>,
    pub double: HashMap<usize, HashMap<usize, Vec<DoubleConstrain<i64, i64>>>>,
}

impl Model {
    /// The single-variable constraints declared for `id`.
    pub open spec fn singles(self, id: usize) -> Seq<SingleConstrain<i64>> {
        if self.single@.contains_key(id) {
            self.single@[id]@
        } else {
            Seq::empty()
        }
    }

    /// A list of two-variable constraints exists for the pair `left`, `right`.
    pub open spec fn has_doubles(self, left: usize, right: usize) -> bool {
        self.double@.contains_key(left) && self.double@[left]@.contains_key(right)
    }

    /// The two-variable constraints declared for the pair `left`, `right`.
    pub open spec fn doubles(self, left: usize, right: usize) -> Seq<DoubleConstrain<i64, i64>> {
        if self.has_doubles(left, right) {
            self.double@[left]@[right]@
        } else {
            Seq::empty()
        }
    }

    /// What checking `value` for `id` reports.
    pub open spec fn single_outcome(self, id: usize, value: i64) -> Option<
        Seq<SingleConstrainCheckError<i64>>,
    > {
        outcome(single_violations(self.singles(id), value))
    }

    /// Every relation declared for `left`, `right` can scale and shift
    /// `left_value` within `i64`.
    pub open spec fn double_defined(self, left: usize, right: usize, left_value: i64) -> bool {
        forall|i: int|
            0 <= i < self.doubles(left, right).len() ==> #[trigger] self.doubles(
                left,
                right,
            )[i].adjust_defined(left_value)
    }

    /// What checking the pair `left_value`, `right_value` for `left`, `right`
    /// reports.
    pub open spec fn double_outcome(
        self,
        left: usize,
        left_value: i64,
        right: usize,
        right_value: i64,
    ) -> Option<Seq<DoubleConstrainCheckError<i64, i64, i64>>> {
        outcome(double_violations(self.doubles(left, right), left_value, right_value))
    }

    /// An empty model.
    pub fn new() -> (r: Self)
        ensures
            r.single@ == Map::<usize, Vec<SingleConstrain<i64>>>::empty(),
            r.double@ == Map::<usize, HashMap<usize, Vec<DoubleConstrain<i64, i64>>>>::empty(),
    {
        Model { single: HashMap::new(), double: HashMap::new() }
    }

    /// Moves the list of single-variable constraints for `id` out of the
    /// model, or makes an empty one.
    fn take_single(&mut self, id: usize) -> (r: Vec<SingleConstrain<i64>>)
        ensures
            r@ == old(self).singles(id),
            final(self).single@ == old(self).single@.remove(id),
            final(self).double@ == old(self).double@,
    {
        match self.single.remove(&id) {
            Some(v) => v,
            None => Vec::new(),
        }
    }
    /// Declares a boundary on `id`. The list for `id` is created if absent,
    /// also when the limits are refused; the boundary is appended only when
    /// they are accepted.
    pub fn add_boundary(&mut self, id: usize, top: Option<Limit<i64>>, bot: Option<Limit<i64>>) -> (r:
        Result<(), ModelErrors<i64>>)
        ensures
            match pair_error(top, bot) {
                Some(e) => r == Err::<(), ModelErrors<i64>>(ModelErrors::Boundary(e))
                    && final(self).singles(id) == old(self).singles(id),
                None => r is Ok && final(self).singles(id) == old(self).singles(id).push(
                    SingleConstrain::Boundary(
                        (Boundary { id, top: as_top(top), bot: as_bottom(bot) }),
                    ),
                ),
            },
            final(self).single@.dom() == old(self).single@.dom().insert(id),
            final(self).single@.remove(id) == old(self).single@.remove(id),
            final(self).double@ == old(self).double@,
    {
        let mut bucket = self.take_single(id);
        let res = match Boundary::create(id, top, bot) {
            Ok(b) => {
                bucket.push(SingleConstrain::Boundary(b));
                Ok(())
            },
            Err(e) => Err(ModelErrors::Boundary(e)),
        };
        self.single.insert(id, bucket);
        proof {
            assert(self.single@.remove(id) =~= old(self).single@.remove(id));
            assert(self.single@.dom() =~= old(self).single@.dom().insert(id));
        }
        res
    }

    /// Declares that `id` must equal `value`.
    pub fn add_fixed(&mut self, id: usize, value: i64)
        ensures
            final(self).singles(id) == old(self).singles(id).push(
                SingleConstrain::Fixed((Fixed { id, value })),
            ),
            final(self).single@.dom() == old(self).single@.dom().insert(id),
            final(self).single@.remove(id) == old(self).single@.remove(id),
            final(self).double@ == old(self).double@,
    {
        let mut bucket = self.take_single(id);
        bucket.push(SingleConstrain::Fixed(Fixed::new(id, value)));
        self.single.insert(id, bucket);
        proof {
            assert(self.single@.remove(id) =~= old(self).single@.remove(id));
            assert(self.single@.dom() =~= old(self).single@.dom().insert(id));
        }
    }

    /// Declares the relation `(left * mul + off) cmp right` between the
    /// variables `left_id` and `right_id`; the smaller id comes first.
    pub fn add_linear(
        &mut self,
        left_id: usize,
        right_id: usize,
        mul: Option<i64>,
        off: Option<i64>,
        cmp: Compare,
    )
        requires
            left_id < right_id,
        ensures
            final(self).doubles(left_id, right_id) == old(self).doubles(left_id, right_id).push(
                DoubleConstrain::LinearRelation(
                    (Linear { left: left_id, right: right_id, cmp, mul, off }),
                ),
            ),
            final(self).has_doubles(left_id, right_id),
            forall|l: usize, r: usize|
                (l, r) != (left_id, right_id) ==> #[trigger] final(self).doubles(l, r) == old(
                    self,
                ).doubles(l, r),
            final(self).single@ == old(self).single@,
    {
        let mut inner = match self.double.remove(&left_id) {
            Some(m) => m,
            None => HashMap::new(),
        };
        let mut bucket = match inner.remove(&right_id) {
            Some(v) => v,
            None => Vec::new(),
        };
        bucket.push(DoubleConstrain::LinearRelation(Linear::new(left_id, right_id, mul, off, cmp)));
        inner.insert(right_id, bucket);
        self.double.insert(left_id, inner);
    }

    /// Checks `value` against every constraint declared for `id` and reports
    /// every violation, in the order of declaration; `None` when there is none.
    pub fn check_single(&self, id: usize, value: i64) -> (r: Option<
        Vec<SingleConstrainCheckError<i64>>,
    >)
        ensures
            errors_view(r) == self.single_outcome(id, value),
    {
        let mut errors: Vec<SingleConstrainCheckError<i64>> = Vec::new();
        if let Some(vec) = self.single.get(&id) {
            let mut i: usize = 0;
            while i < vec.len()
                invariant
                    i <= vec@.len(),
                    vec@ == self.singles(id),
                    errors@ == single_violations(vec@.subrange(0, i as int), value),
                decreases vec@.len() - i,
            {
                proof {
                    assert(vec@.subrange(0, i + 1).drop_last() =~= vec@.subrange(0, i as int));
                }
                match vec[i].check(&value) {
                    SingleConstrainCheckResult::Satisfied => {},
                    SingleConstrainCheckResult::Violated(e) => errors.push(e),
                }
                i = i + 1;
            }
            proof {
                assert(vec@.subrange(0, vec@.len() as int) =~= vec@);
            }
        }
        if errors.len() == 0 {
            None
        } else {
            Some(errors)
        }
    }

    /// Checks the pair `left_value`, `right_value` against every constraint
    /// declared for `left_id`, `right_id` (in that order) and reports every
    /// violation, in the order of declaration; `None` when there is none.
    /// Each relation must be able to scale and shift `left_value` within
    /// `i64`.
    pub fn check_double(&self, left_id: usize, left_value: i64, right_id: usize, right_value: i64) -> (r:
        Option<Vec<DoubleConstrainCheckError<i64, i64, i64>>>)
        requires
            self.double_defined(left_id, right_id, left_value),
        ensures
            errors_view(r) == self.double_outcome(left_id, left_value, right_id, right_value),
    {
        let mut errors: Vec<DoubleConstrainCheckError<i64, i64, i64>> = Vec::new();
        if let Some(inner) = self.double.get(&left_id) {
            if let Some(vec) = inner.get(&right_id) {
                let mut i: usize = 0;
                while i < vec.len()
                    invariant
                        i <= vec@.len(),
                        vec@ == self.doubles(left_id, right_id),
                        self.double_defined(left_id, right_id, left_value),
                        errors@ == double_violations(
                            vec@.subrange(0, i as int),
                            left_value,
                            right_value,
                        ),
                    decreases vec@.len() - i,
                {
                    proof {
                        assert(vec@.subrange(0, i + 1).drop_last() =~= vec@.subrange(0, i as int));
                        assert(self.doubles(left_id, right_id)[i as int].adjust_defined(left_value));
                    }
                    match vec[i].check(&left_value, &right_value) {
                        DoubleConstrainCheckResult::Satisfied => {},
                        DoubleConstrainCheckResult::Violated(e) => errors.push(e),
                    }
                    i = i + 1;
                }
                proof {
                    assert(vec@.subrange(0, vec@.len() as int) =~= vec@);
                }
            }
        }
        if errors.len() == 0 {
            None
        } else {
            Some(errors)
        }
    }
}


/// With one boundary and one fixed value declared for `id`, checking a value
/// that breaks both reports both violations, in the order of declaration,
/// and checking a value that meets both reports nothing.
pub proof fn lemma_check_single_boundary_and_fixed(
    m: Model,
    id: usize,
    value: i64,
    b: Boundary<i64>,
    f: Fixed<i64>,
)
    requires
        m.singles(id) == seq![SingleConstrain::Boundary(b), SingleConstrain::Fixed(f)],
    ensures
        SingleConstrain::Boundary(b).violation(value) matches Some(e1) ==> (SingleConstrain::Fixed(
            f,
        ).violation(value) matches Some(e2) ==> m.single_outcome(id, value) == Some(seq![e1, e2])),
        SingleConstrain::Boundary(b).violation(value) is None && SingleConstrain::Fixed(
            f,
        ).violation(value) is None ==> m.single_outcome(id, value) is None,
{
    let cs = m.singles(id);
    assert(cs.drop_last() =~= seq![SingleConstrain::Boundary(b)]);
    assert(cs.drop_last().drop_last() =~= Seq::<SingleConstrain<i64>>::empty());
    let first = single_violations(cs.drop_last(), value);
    assert(single_violations(cs.drop_last().drop_last(), value) =~= Seq::empty());
    if let Some(e1) = SingleConstrain::Boundary(b).violation(value) {
        assert(first =~= seq![e1]);
        if let Some(e2) = SingleConstrain::Fixed(f).violation(value) {
            assert(single_violations(cs, value) =~= seq![e1, e2]);
        }
    }
}

/// Checking a value for an id on which nothing was declared reports nothing.
pub proof fn lemma_check_single_undeclared(m: Model, id: usize, value: i64)
    requires
        !m.single@.contains_key(id),
    ensures
        m.single_outcome(id, value) is None,
{
}

/// Two checks of one value for one id on the same model report the same
/// violations: checking leaves nothing behind that a later check could see.
pub proof fn lemma_check_single_repeatable(
    m: Model,
    id: usize,
    value: i64,
    first: Option<Vec<SingleConstrainCheckError<i64>>>,
    second: Option<Vec<SingleConstrainCheckError<i64>>>,
)
    requires
        errors_view(first) == m.single_outcome(id, value),
        errors_view(second) == m.single_outcome(id, value),
    ensures
        errors_view(first) == errors_view(second),
{
}

/// Two checks of one pair of values on the same model report the same
/// violations.
pub proof fn lemma_check_double_repeatable(
    m: Model,
    left_id: usize,
    left_value: i64,
    right_id: usize,
    right_value: i64,
    first: Option<Vec<DoubleConstrainCheckError<i64, i64, i64>>>,
    second: Option<Vec<DoubleConstrainCheckError<i64, i64, i64>>>,
)
    requires
        errors_view(first) == m.double_outcome(left_id, left_value, right_id, right_value),
        errors_view(second) == m.double_outcome(left_id, left_value, right_id, right_value),
    ensures
        errors_view(first) == errors_view(second),
{
}

} // verus!
