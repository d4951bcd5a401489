use vstd::prelude::*;

use std::cmp::Ordering;

verus! {

/// A relational operator applied to the three-way ordering of two values.
#[derive(Debug, Clone, Copy, PartialEq, Eq, Structural)]
pub enum Compare {
    /// Less than ( < )
    LT,
    /// Less or equal ( <= )
    LTE,
    /// Greater than ( > )
    GT,
    /// Greater or equal ( >= )
    GTE,
    /// Equal ( = )
    EQ,
}

impl Compare {
    /// Whether the ordering `o` (of a left value against a right value)
    /// satisfies this relation.
    pub open spec fn accepts(self, o: Ordering) -> bool {
        match self {
            Compare::LT => o == Ordering::Less,
            Compare::LTE => o == Ordering::Less || o == Ordering::Equal,
            Compare::GT => o == Ordering::Greater,
            Compare::GTE => o == Ordering::Greater || o == Ordering::Equal,
            Compare::EQ => o == Ordering::Equal,
        }
    }

    /// Tells whether the ordering `cmp` satisfies this relation.
    pub fn is_in(&self, cmp: Ordering) -> (r: bool)
        ensures
            r == self.accepts(cmp),
    {
        match cmp {
            Ordering::Less => match self {
                Compare::LT | Compare::LTE => true,
                Compare::GT | Compare::GTE | Compare::EQ => false,
            },
            Ordering::Equal => match self {
                Compare::LTE | Compare::GTE | Compare::EQ => true,
                Compare::LT | Compare::GT => false,
            },
            Ordering::Greater => match self {
                Compare::GT | Compare::GTE => true,
                Compare::LT | Compare::LTE | Compare::EQ => false,
            },
        }
    }
}

} // verus!
