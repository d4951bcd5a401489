use vstd::prelude::*;

verus! {

/// A value type that names its own smallest and largest values. A boundary
/// without a top or bottom limit stands, conceptually, at these extremes.
pub trait MinMax: Sized {
    /// The smallest value of the type.
    spec fn spec_min() -> Self;

    /// The largest value of the type.
    spec fn spec_max() -> Self;

    /// Provides the minimum value.
    fn min() -> (r: Self)
        ensures
            r == Self::spec_min(),
    ;

    /// Provides the maximum value.
    fn max() -> (r: Self)
        ensures
            r == Self::spec_max(),
    ;
}

impl MinMax for i64 {
    open spec fn spec_min() -> i64 {
        i64::MIN
    }

    open spec fn spec_max() -> i64 {
        i64::MAX
    }

    fn min() -> (r: i64) {
        i64::MIN
    }

    fn max() -> (r: i64) {
        i64::MAX
    }
}

} // verus!
