//! A small constraint-checking engine: range boundaries, fixed values and
//! linear relations over numbered variables, collected in a model that checks
//! observed values against every constraint declared for them.
pub mod boundary;
pub mod compare;
pub mod constraints;
pub mod fixed;
pub mod manager;
pub mod min_max;
pub mod model;
pub mod relation;

pub use boundary::{
    Boundary, BoundaryCheckError, BoundaryCheckResult, BoundaryError, Bottom, Limit, Top,
};
pub use compare::Compare;
pub use constraints::{
    DoubleConstrain, DoubleConstrainCheckError, DoubleConstrainCheckResult, SingleConstrain,
    SingleConstrainCheckError, SingleConstrainCheckResult,
};
pub use fixed::{Fixed, FixedCheckError, FixedCheckResult};
pub use manager::Manager;
pub use min_max::MinMax;
pub use model::{Model, ModelErrors};
pub use relation::{Linear, LinearCheckError, LinearCheckResult};
