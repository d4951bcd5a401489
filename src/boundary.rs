use vstd::prelude::*;

use std::cmp::Ordering;
use vstd::std_specs::cmp::PartialOrdSpec;

use crate::compare::Compare;
use crate::min_max::MinMax;

verus! {

/// A single bound: a point and whether the point itself is admitted.
#[derive(Debug, Clone, Copy)]
pub struct Limit<T> {
    /// The limit's point
    pub point: T,
    /// Whether a value equal to the point is admitted
    pub equal: bool,
}

/// The upper limit of a boundary.
#[derive(Debug, Clone, Copy)]
pub struct Top<T> {
    pub limit: Limit<T>,
}

/// The lower limit of a boundary.
#[derive(Debug, Clone, Copy)]
pub struct Bottom<T> {
    pub limit: Limit<T>,
}

impl<T: MinMax> Default for Top<T> {
    /// The largest value of the type, admitted.
    fn default() -> (r: Self)
        ensures
            r.limit.point == T::spec_max(),
            r.limit.equal,
    {
        Top { limit: Limit { point: T::max(), equal: true } }
    }
}

impl<T: MinMax> Default for Bottom<T> {
    /// The smallest value of the type, admitted.
    fn default() -> (r: Self)
        ensures
            r.limit.point == T::spec_min(),
            r.limit.equal,
    {
        Bottom { limit: Limit { point: T::min(), equal: true } }
    }
}

/// Why a pair of limits cannot form a boundary.
#[derive(Debug)]
pub enum BoundaryError<T> {
    /// Bottom and top share their point: a fixed value, not a range.
    FixedPoint(T),
    /// The bottom point orders above the top point.
    InvalidLimits { top: Limit<T>, bottom: Limit<T> },
    /// The two points cannot be ordered against each other.
    CannotCmp { top: Limit<T>, bottom: Limit<T> },
}

/// Why a value is outside a boundary.
#[derive(Debug)]
pub enum BoundaryCheckError<T> {
    TooLow { value: T, bottom: Bottom<T> },
    TooHigh { value: T, top: Top<T> },
    CannotCmp,
}

/// The outcome of checking a value against a boundary.
#[derive(Debug)]
pub enum BoundaryCheckResult<T> {
    Satisfied,
    Violated(BoundaryCheckError<T>),
}

/// `value` is on the admitted side of the lower limit `bottom`.
pub open spec fn above_bottom<T: PartialOrdSpec>(value: T, bottom: Limit<T>) -> bool {
    match value.partial_cmp_spec(&bottom.point) {
        Some(Ordering::Greater) => true,
        Some(Ordering::Equal) => bottom.equal,
        _ => false,
    }
}

/// `value` is on the admitted side of the upper limit `top`.
pub open spec fn below_top<T: PartialOrdSpec>(value: T, top: Limit<T>) -> bool {
    match value.partial_cmp_spec(&top.point) {
        Some(Ordering::Less) => true,
        Some(Ordering::Equal) => top.equal,
        _ => false,
    }
}

/// `a` and `b` can be ordered against each other.
pub open spec fn comparable<T: PartialOrdSpec>(a: T, b: T) -> bool {
    a.partial_cmp_spec(&b) is Some
}

/// What is wrong, if anything, with `bottom` and `top` as the two limits of
/// one boundary: the bottom point must order strictly below the top point.
pub open spec fn limits_error<T: PartialOrdSpec>(bottom: Limit<T>, top: Limit<T>) -> Option<
    BoundaryError<T>,
> {
    match bottom.point.partial_cmp_spec(&top.point) {
        None => Some(BoundaryError::CannotCmp { top, bottom }),
        Some(Ordering::Less) => None,
        Some(Ordering::Equal) => Some(BoundaryError::FixedPoint(bottom.point)),
        Some(Ordering::Greater) => Some(BoundaryError::InvalidLimits { top, bottom }),
    }
}

/// What is wrong, if anything, with a pair of optional limits; a missing
/// limit is always acceptable.
pub open spec fn pair_error<T: PartialOrdSpec>(top: Option<Limit<T>>, bottom: Option<Limit<T>>) -> Option<
    BoundaryError<T>,
> {
    match (top, bottom) {
        (Some(t), Some(b)) => limits_error(b, t),
        _ => None,
    }
}

/// An optional limit taken as a top.
pub open spec fn as_top<T>(top: Option<Limit<T>>) -> Option<Top<T>> {
    match top {
        Some(l) => Some(Top { limit: l }),
        None => None,
    }
}

/// An optional limit taken as a bottom.
pub open spec fn as_bottom<T>(bottom: Option<Limit<T>>) -> Option<Bottom<T>> {
    match bottom {
        Some(l) => Some(Bottom { limit: l }),
        None => None,
    }
}

/// The limit of an optional top.
pub open spec fn as_limit_of_top<T>(top: Option<Top<T>>) -> Option<Limit<T>> {
    match top {
        Some(t) => Some(t.limit),
        None => None,
    }
}

/// The limit of an optional bottom.
pub open spec fn as_limit_of_bottom<T>(bottom: Option<Bottom<T>>) -> Option<Limit<T>> {
    match bottom {
        Some(b) => Some(b.limit),
        None => None,
    }
}

/// A range constraint on one variable: an optional top and an optional
/// bottom limit.
#[derive(Debug)]
pub struct Boundary<T> {
    pub id: usize,
    pub top: Option<Top<T>>,
    pub bot: Option<Bottom<T>>,
}

impl<T: PartialOrd + PartialOrdSpec + Copy> Boundary<T> {
    /// Where both limits are present, the bottom orders strictly below the top.
    pub open spec fn wf(self) -> bool {
        match (self.top, self.bot) {
            (Some(t), Some(b)) => limits_error(b.limit, t.limit) is None,
            _ => true,
        }
    }

    /// The violation of the lower limit by `value`, if any.
    pub open spec fn bottom_violation(self, value: T) -> Option<BoundaryCheckError<T>> {
        match self.bot {
            None => None,
            Some(b) => if !comparable(value, b.limit.point) {
                Some(BoundaryCheckError::CannotCmp)
            } else if !above_bottom(value, b.limit) {
                Some(BoundaryCheckError::TooLow { value, bottom: b })
            } else {
                None
            },
        }
    }

    /// The violation of the upper limit by `value`, if any.
    pub open spec fn top_violation(self, value: T) -> Option<BoundaryCheckError<T>> {
        match self.top {
            None => None,
            Some(t) => if !comparable(value, t.limit.point) {
                Some(BoundaryCheckError::CannotCmp)
            } else if !below_top(value, t.limit) {
                Some(BoundaryCheckError::TooHigh { value, top: t })
            } else {
                None
            },
        }
    }

    /// The outcome of checking `value`: the bottom limit is checked first,
    /// and only the first violation found is reported.
    pub open spec fn check_spec(self, value: T) -> BoundaryCheckResult<T> {
        match self.bottom_violation(value) {
            Some(e) => BoundaryCheckResult::Violated(e),
            None => match self.top_violation(value) {
                Some(e) => BoundaryCheckResult::Violated(e),
                None => BoundaryCheckResult::Satisfied,
            },
        }
    }

    /// A boundary without limits.
    pub fn new(id: usize) -> (r: Self)
        ensures
            r.id == id,
            r.top is None,
            r.bot is None,
            r.wf(),
    {
        Boundary { id, top: None, bot: None }
    }

    /// Accepts `bot` and `top` as the two limits of one boundary only when
    /// the bottom point orders strictly below the top point.
    fn check_new_limits(bot: &Limit<T>, top: &Limit<T>) -> (r: Result<(), BoundaryError<T>>)
        requires
            T::obeys_partial_cmp_spec(),
        ensures
            match limits_error(*bot, *top) {
                Some(e) => r == Err::<(), BoundaryError<T>>(e),
                None => r is Ok,
            },
    {
        match bot.point.partial_cmp(&top.point) {
            Some(ord) => match ord {
                Ordering::Less => Ok(()),
                Ordering::Equal => Err(BoundaryError::FixedPoint(bot.point)),
                Ordering::Greater => Err(BoundaryError::InvalidLimits { top: *top, bottom: *bot }),
            },
            None => Err(BoundaryError::CannotCmp { top: *top, bottom: *bot }),
        }
    }
    /// A boundary with the given limits, unless both are present and the
    /// bottom point does not order strictly below the top point.
    pub fn create(id: usize, top: Option<Limit<T>>, bot: Option<Limit<T>>) -> (r: Result<
        Self,
        BoundaryError<T>,
    >)
        requires
            T::obeys_partial_cmp_spec(),
        ensures
            match pair_error(top, bot) {
                Some(e) => r == Err::<Self, BoundaryError<T>>(e),
                None => r == Ok::<Self, BoundaryError<T>>(
                    (Boundary { id, top: as_top(top), bot: as_bottom(bot) }),
                ),
            },
            r matches Ok(b) ==> b.wf(),
    {
        if bot.is_some() && top.is_some() {
            let b = bot.unwrap();
            let t = top.unwrap();
            if let Err(e) = Self::check_new_limits(&b, &t) {
                return Err(e);
            }
        }
        let new_top = match top {
            Some(l) => Some(Top { limit: l }),
            None => None,
        };
        let new_bot = match bot {
            Some(l) => Some(Bottom { limit: l }),
            None => None,
        };
        Ok(Boundary { id, top: new_top, bot: new_bot })
    }

    /// Replaces both limits at once, after checking them together. On an
    /// error the boundary is left as it was.
    pub fn update(&mut self, top: Limit<T>, bot: Limit<T>) -> (r: Result<(), BoundaryError<T>>)
        requires
            T::obeys_partial_cmp_spec(),
        ensures
            match limits_error(bot, top) {
                Some(e) => r == Err::<(), BoundaryError<T>>(e) && *final(self) == *old(self),
                None => r is Ok && *final(self) == (Boundary {
                    id: old(self).id,
                    top: Some(Top { limit: top }),
                    bot: Some(Bottom { limit: bot }),
                }),
            },
            r is Ok ==> final(self).wf(),
    {
        Self::check_new_limits(&bot, &top)?;
        self.top = Some(Top { limit: top });
        self.bot = Some(Bottom { limit: bot });
        Ok(())
    }

    /// Replaces the top limit, after checking it against the bottom limit if
    /// there is one. On an error the boundary is left as it was.
    pub fn set_top(&mut self, top: Limit<T>) -> (r: Result<(), BoundaryError<T>>)
        requires
            T::obeys_partial_cmp_spec(),
        ensures
            match pair_error(Some(top), as_limit_of_bottom(old(self).bot)) {
                Some(e) => r == Err::<(), BoundaryError<T>>(e) && *final(self) == *old(self),
                None => r is Ok && *final(self) == (Boundary {
                    top: Some(Top { limit: top }),
                    ..*old(self)
                }),
            },
            r is Ok ==> final(self).wf(),
    {
        if self.bot.is_some() {
            let b = self.bot.unwrap();
            Self::check_new_limits(&b.limit, &top)?;
        }
        self.top = Some(Top { limit: top });
        Ok(())
    }

    /// Replaces the bottom limit, after checking it against the top limit if
    /// there is one. On an error the boundary is left as it was.
    pub fn set_bot(&mut self, bot: Limit<T>) -> (r: Result<(), BoundaryError<T>>)
        requires
            T::obeys_partial_cmp_spec(),
        ensures
            match pair_error(as_limit_of_top(old(self).top), Some(bot)) {
                Some(e) => r == Err::<(), BoundaryError<T>>(e) && *final(self) == *old(self),
                None => r is Ok && *final(self) == (Boundary {
                    bot: Some(Bottom { limit: bot }),
                    ..*old(self)
                }),
            },
            r is Ok ==> final(self).wf(),
    {
        if self.top.is_some() {
            let t = self.top.unwrap();
            Self::check_new_limits(&bot, &t.limit)?;
        }
        self.bot = Some(Bottom { limit: bot });
        Ok(())
    }

    /// Checks `value` against the bottom limit, then the top limit, and
    /// reports the first violation found.
    pub fn is_in(&self, value: T) -> (r: BoundaryCheckResult<T>)
        requires
            T::obeys_partial_cmp_spec(),
        ensures
            r == self.check_spec(value),
    {
        if let Some(bot) = &self.bot {
            let cmp = if bot.limit.equal {
                Compare::GTE
            } else {
                Compare::GT
            };
            match value.partial_cmp(&bot.limit.point) {
                Some(cmp_rst) => {
                    if !cmp.is_in(cmp_rst) {
                        return BoundaryCheckResult::Violated(
                            BoundaryCheckError::TooLow { value, bottom: *bot },
                        );
                    }
                },
                None => return BoundaryCheckResult::Violated(BoundaryCheckError::CannotCmp),
            }
        }
        if let Some(top) = &self.top {
            let cmp = if top.limit.equal {
                Compare::LTE
            } else {
                Compare::LT
            };
            match value.partial_cmp(&top.limit.point) {
                Some(cmp_rst) => {
                    if !cmp.is_in(cmp_rst) {
                        return BoundaryCheckResult::Violated(
                            BoundaryCheckError::TooHigh { value, top: *top },
                        );
                    }
                },
                None => return BoundaryCheckResult::Violated(BoundaryCheckError::CannotCmp),
            }
        }
        BoundaryCheckResult::Satisfied
    }
}


/// A value is inside an `i64` boundary exactly when it lies above the bottom
/// point (or on it, where the bottom is inclusive) and below the top point
/// (or on it, where the top is inclusive); a missing limit admits every value.
/// A value below the bottom is reported as too low, whatever the top says.
pub proof fn lemma_boundary_contains(b: Boundary<i64>, value: i64)
    ensures
        b.check_spec(value) is Satisfied <==> {
            &&& (b.bot matches Some(l) ==> l.limit.point < value || (l.limit.equal
                && l.limit.point == value))
            &&& (b.top matches Some(l) ==> value < l.limit.point || (l.limit.equal
                && value == l.limit.point))
        },
        b.bot matches Some(l) ==> ((value < l.limit.point || (!l.limit.equal && value
            == l.limit.point)) ==> b.check_spec(value) == BoundaryCheckResult::Violated(
            BoundaryCheckError::TooLow { value, bottom: l },
        )),
{
}

/// Two limits on one point never form a boundary, whatever their
/// inclusivity: they are refused as a fixed point.
pub proof fn lemma_equal_points_refused(top: Limit<i64>, bot: Limit<i64>)
    requires
        top.point == bot.point,
    ensures
        pair_error(Some(top), Some(bot)) == Some(BoundaryError::FixedPoint(bot.point)),
{
}

/// A bottom point above the top point is refused as invalid limits.
pub proof fn lemma_inverted_points_refused(top: Limit<i64>, bot: Limit<i64>)
    requires
        bot.point > top.point,
    ensures
        pair_error(Some(top), Some(bot)) == Some(
            BoundaryError::InvalidLimits { top, bottom: bot },
        ),
{
}

} // verus!
