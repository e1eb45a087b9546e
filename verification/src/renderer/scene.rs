//! What the renderer draws: models and lights.

use vstd::prelude::*;

verus! {

/// The models and lights to draw.
pub struct Scene<M, L> {
    pub models: Vec<M>,
    pub lights: Vec<L>,
}

impl<M, L> Scene<M, L> {
    /// A scene holding the given models and lights.
    pub fn new(models: Vec<M>, lights: Vec<L>) -> (s: Self)
        ensures
            s.models@ == models@,
            s.lights@ == lights@,
    {
        Self { models, lights }
    }
}

} // verus!
