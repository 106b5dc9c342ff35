//! Owning handle of a render pipeline.

use crate::handle::{hash_id, HandleCell};
use crate::resource::{Resource, ResourceCleaner};
use crate::sync::share;
use std::sync::Arc;
use vstd::prelude::*;
use vstd::std_specs::cmp::PartialEqSpec;

verus! {

/// Owning handle of a pipeline that a backend created. Clones share one cell;
/// when the last of them is dropped, `Resource::Pipeline(id)` is handed to the
/// cleaner the handle was made with.
#[derive(Debug)]
pub struct Pipeline {
    id: u64,
    _ref: Arc<HandleCell>,
}

impl View for Pipeline {
    type V = Resource;

    /// The tag under which the pipeline is released.
    closed spec fn view(&self) -> Resource {
        Resource::Pipeline(self.id)
    }
}

impl Pipeline {
    /// The shared cell carries the tag of this handle.
    #[verifier::type_invariant]
    spec fn well_formed(self) -> bool {
        self._ref.tag == self@
    }

    /// The cleaner that the handle reports to.
    pub closed spec fn cleaner(&self) -> ResourceCleaner {
        self._ref.cleaner
    }

    /// Wraps an id that the backend of `cleaner` has given out for
    /// a pipeline.
    pub fn new(id: u64, cleaner: ResourceCleaner) -> (pipeline: Self)
        ensures
            pipeline@ == Resource::Pipeline(id),
            pipeline.cleaner() == cleaner,
    {
        let _ref = Arc::new(HandleCell::new(Resource::Pipeline(id), cleaner));
        Self { id, _ref }
    }

    /// The id that the backend knows the pipeline by.
    pub fn id(&self) -> (id: u64)
        ensures
            self@ == Resource::Pipeline(id),
    {
        self.id
    }
}

impl Clone for Pipeline {
    /// Another handle on the same cell: no new id, no new resource.
    fn clone(&self) -> (other: Self)
        ensures
            other == *self,
    {
        proof {
            use_type_invariant(self);
        }
        Pipeline { id: self.id, _ref: share(&self._ref) }
    }
}

impl PartialEq for Pipeline {
    fn eq(&self, other: &Self) -> (equal: bool) {
        self.id() == other.id()
    }
}

impl vstd::std_specs::cmp::PartialEqSpecImpl for Pipeline {
    open spec fn obeys_eq_spec() -> bool {
        true
    }

    /// Handles are equal when they name the same pipeline.
    open spec fn eq_spec(&self, other: &Self) -> bool {
        self@ == other@
    }
}

impl std::hash::Hash for Pipeline {
    /// Hashes the id and nothing else, so equal handles hash alike.
    fn hash<H: std::hash::Hasher>(&self, state: &mut H) {
        hash_id(self.id, state)
    }
}

/// Two pipeline handles are equal exactly when they were made from the same
/// id.
pub proof fn pipelines_equal_by_id(a: Pipeline, id_a: u64, b: Pipeline, id_b: u64)
    requires
        a@ == Resource::Pipeline(id_a),
        b@ == Resource::Pipeline(id_b),
    ensures
        a.eq_spec(&b) <==> id_a == id_b,
{
}

/// The clones of one pipeline handle are equal to it and to each other, and
/// so is a clone of a clone: all of them name the same pipeline.
pub proof fn pipeline_clones_are_equal(
    pipeline: Pipeline,
    first: Pipeline,
    second: Pipeline,
    further: Pipeline,
)
    requires
        first == pipeline,
        second == pipeline,
        further == first,
    ensures
        first.eq_spec(&pipeline),
        first.eq_spec(&second),
        further.eq_spec(&second),
        further.eq_spec(&pipeline),
        first@ == pipeline@,
        second@ == pipeline@,
        further@ == pipeline@,
{
}

} // verus!
