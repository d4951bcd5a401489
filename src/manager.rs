use vstd::prelude::*;

use crate::boundary::{Boundary, Bottom, Limit, Top};
use crate::constraints::SingleConstrain;
use crate::fixed::Fixed;
use crate::model::Model;

verus! {

/// The state behind the viewer: the model whose constraints it shows.
#[derive(Debug)]
pub struct Manager {
    pub model: Model,
}

impl Default for Manager {
    /// A model in which variable 0 is fixed at 10 and bounded to `[0, 20)`.
    fn default() -> (r: Self)
        ensures
            r.model.singles(0) == seq![
                SingleConstrain::Fixed((Fixed { id: 0, value: 10i64 })),
                SingleConstrain::Boundary(
                    (Boundary {
                        id: 0,
                        top: Some(Top { limit: Limit { point: 20i64, equal: false } }),
                        bot: Some(Bottom { limit: Limit { point: 0i64, equal: true } }),
                    }),
                ),
            ],
            r.model.single@.dom() == set![0usize],
            r.model.double@.dom().is_empty(),
    {
        let mut model = Model::new();
        model.add_fixed(0, 10);
        let added = model.add_boundary(
            0,
            Some(Limit { point: 20, equal: false }),
            Some(Limit { point: 0, equal: true }),
        );
        proof {
            assert(added is Ok);
            assert(model.single@.dom() =~= set![0usize]);
        }
        Manager { model }
    }
}

} // verus!
