//! Owning handle of a GPU buffer.

use crate::handle::{hash_id, HandleCell};
use crate::resource::{Resource, ResourceCleaner};
use crate::sync::share;
use std::sync::Arc;
use vstd::prelude::*;
use vstd::std_specs::cmp::PartialEqSpec;

verus! {

/// Owning handle of a buffer that a backend created. Clones share one cell;
/// when the last of them is dropped, `Resource::Buffer(id)` is handed to the
/// cleaner the handle was made with.
#[derive(Debug)]
pub struct Buffer {
    id: u64,
    _ref: Arc<HandleCell>,
}

impl View for Buffer {
    type V = Resource;

    /// The tag under which the buffer is released.
    closed spec fn view(&self) -> Resource {
        Resource::Buffer(self.id)
    }
}

impl Buffer {
    /// The shared cell carries the tag of this handle.
    #[verifier::type_invariant]
    spec fn well_formed(self) -> bool {
        self._ref.tag == self@
    }

    /// The cleaner that the handle reports to.
    pub closed spec fn cleaner(&self) -> ResourceCleaner {
        self._ref.cleaner
    }

    /// Wraps an id that the backend of `cleaner` has given out for
    /// a buffer.
    pub fn new(id: u64, cleaner: ResourceCleaner) -> (buffer: Self)
        ensures
            buffer@ == Resource::Buffer(id),
            buffer.cleaner() == cleaner,
    {
        let _ref = Arc::new(HandleCell::new(Resource::Buffer(id), cleaner));
        Self { id, _ref }
    }

    /// The id that the backend knows the buffer by.
    pub fn id(&self) -> (id: u64)
        ensures
            self@ == Resource::Buffer(id),
    {
        self.id
    }
}

impl Clone for Buffer {
    /// Another handle on the same cell: no new id, no new resource.
    fn clone(&self) -> (other: Self)
        ensures
            other == *self,
    {
        proof {
            use_type_invariant(self);
        }
        Buffer { id: self.id, _ref: share(&self._ref) }
    }
}

impl PartialEq for Buffer {
    fn eq(&self, other: &Self) -> (equal: bool) {
        self.id() == other.id()
    }
}

impl vstd::std_specs::cmp::PartialEqSpecImpl for Buffer {
    open spec fn obeys_eq_spec() -> bool {
        true
    }

    /// Handles are equal when they name the same buffer.
    open spec fn eq_spec(&self, other: &Self) -> bool {
        self@ == other@
    }
}

impl std::hash::Hash for Buffer {
    /// Hashes the id and nothing else, so equal handles hash alike.
    fn hash<H: std::hash::Hasher>(&self, state: &mut H) {
        hash_id(self.id, state)
    }
}

/// Two buffer handles are equal exactly when they were made from the same
/// id.
pub proof fn buffers_equal_by_id(a: Buffer, id_a: u64, b: Buffer, id_b: u64)
    requires
        a@ == Resource::Buffer(id_a),
        b@ == Resource::Buffer(id_b),
    ensures
        a.eq_spec(&b) <==> id_a == id_b,
{
}

/// The clones of one buffer handle are equal to it and to each other, and
/// so is a clone of a clone: all of them name the same buffer.
pub proof fn buffer_clones_are_equal(
    buffer: Buffer,
    first: Buffer,
    second: Buffer,
    further: Buffer,
)
    requires
        first == buffer,
        second == buffer,
        further == first,
    ensures
        first.eq_spec(&buffer),
        first.eq_spec(&second),
        further.eq_spec(&second),
        further.eq_spec(&buffer),
        first@ == buffer@,
        second@ == buffer@,
        further@ == buffer@,
{
}

} // verus!
