//! Owning handle of a render target.

use crate::handle::{hash_id, HandleCell};
use crate::resource::{Resource, ResourceCleaner};
use crate::sync::share;
use std::sync::Arc;
use vstd::prelude::*;
use vstd::std_specs::cmp::PartialEqSpec;

verus! {

/// Owning handle of a render target that a backend created. Clones share one cell;
/// when the last of them is dropped, `Resource::RenderTexture(id)` is handed to the
/// cleaner the handle was made with.
#[derive(Debug)]
pub struct RenderTexture {
    id: u64,
    _ref: Arc<HandleCell>,
}

impl View for RenderTexture {
    type V = Resource;

    /// The tag under which the render target is released.
    closed spec fn view(&self) -> Resource {
        Resource::RenderTexture(self.id)
    }
}

impl RenderTexture {
    /// The shared cell carries the tag of this handle.
    #[verifier::type_invariant]
    spec fn well_formed(self) -> bool {
        self._ref.tag == self@
    }

    /// The cleaner that the handle reports to.
    pub closed spec fn cleaner(&self) -> ResourceCleaner {
        self._ref.cleaner
    }

    /// Wraps an id that the backend of `cleaner` has given out for
    /// a render target.
    pub fn new(id: u64, cleaner: ResourceCleaner) -> (target: Self)
        ensures
            target@ == Resource::RenderTexture(id),
            target.cleaner() == cleaner,
    {
        let _ref = Arc::new(HandleCell::new(Resource::RenderTexture(id), cleaner));
        Self { id, _ref }
    }

    /// The id that the backend knows the render target by.
    pub fn id(&self) -> (id: u64)
        ensures
            self@ == Resource::RenderTexture(id),
    {
        self.id
    }
}

impl Clone for RenderTexture {
    /// Another handle on the same cell: no new id, no new resource.
    fn clone(&self) -> (other: Self)
        ensures
            other == *self,
    {
        proof {
            use_type_invariant(self);
        }
        RenderTexture { id: self.id, _ref: share(&self._ref) }
    }
}

impl PartialEq for RenderTexture {
    fn eq(&self, other: &Self) -> (equal: bool) {
        self.id() == other.id()
    }
}

impl vstd::std_specs::cmp::PartialEqSpecImpl for RenderTexture {
    open spec fn obeys_eq_spec() -> bool {
        true
    }

    /// Handles are equal when they name the same render target.
    open spec fn eq_spec(&self, other: &Self) -> bool {
        self@ == other@
    }
}

impl std::hash::Hash for RenderTexture {
    /// Hashes the id and nothing else, so equal handles hash alike.
    fn hash<H: std::hash::Hasher>(&self, state: &mut H) {
        hash_id(self.id, state)
    }
}

/// Two render target handles are equal exactly when they were made from the same
/// id.
pub proof fn render_textures_equal_by_id(a: RenderTexture, id_a: u64, b: RenderTexture, id_b: u64)
    requires
        a@ == Resource::RenderTexture(id_a),
        b@ == Resource::RenderTexture(id_b),
    ensures
        a.eq_spec(&b) <==> id_a == id_b,
{
}

/// The clones of one render target handle are equal to it and to each other, and
/// so is a clone of a clone: all of them name the same render target.
pub proof fn render_texture_clones_are_equal(
    target: RenderTexture,
    first: RenderTexture,
    second: RenderTexture,
    further: RenderTexture,
)
    requires
        first == target,
        second == target,
        further == first,
    ensures
        first.eq_spec(&target),
        first.eq_spec(&second),
        further.eq_spec(&second),
        further.eq_spec(&target),
        first@ == target@,
        second@ == target@,
        further@ == target@,
{
}

} // verus!
