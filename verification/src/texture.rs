//! Textures: their pixel formats and filters, and the owning handle.

use crate::handle::{hash_id, HandleCell};
use crate::resource::{Resource, ResourceCleaner};
use crate::sync::share;
use std::sync::Arc;
use vstd::prelude::*;
use vstd::std_specs::cmp::PartialEqSpec;

verus! {

/// Layout of the pixels of a texture.
#[derive(Debug, Clone, Copy, Eq, PartialEq, Structural)]
pub enum TextureFormat {
    SRgba8,
    Rgba32,
    R8,
    Depth16,
}

/// How a texture is sampled between its pixels.
#[derive(Debug, Clone, Copy, Eq, PartialEq, Structural)]
pub enum TextureFilter {
    Linear,
    Nearest,
}

/// Owning handle of a texture that a backend created. Clones share one cell;
/// when the last of them is dropped, `Resource::Texture(id)` is handed to the
/// cleaner the handle was made with.
#[derive(Debug)]
pub struct Texture {
    id: u64,
    _ref: Arc<HandleCell>,
}

impl View for Texture {
    type V = Resource;

    /// The tag under which the texture is released.
    closed spec fn view(&self) -> Resource {
        Resource::Texture(self.id)
    }
}

impl Texture {
    /// The shared cell carries the tag of this handle.
    #[verifier::type_invariant]
    spec fn well_formed(self) -> bool {
        self._ref.tag == self@
    }

    /// The cleaner that the handle reports to.
    pub closed spec fn cleaner(&self) -> ResourceCleaner {
        self._ref.cleaner
    }

    /// Wraps an id that the backend of `cleaner` has given out for
    /// a texture.
    pub fn new(id: u64, cleaner: ResourceCleaner) -> (texture: Self)
        ensures
            texture@ == Resource::Texture(id),
            texture.cleaner() == cleaner,
    {
        let _ref = Arc::new(HandleCell::new(Resource::Texture(id), cleaner));
        Self { id, _ref }
    }

    /// The id that the backend knows the texture by.
    pub fn id(&self) -> (id: u64)
        ensures
            self@ == Resource::Texture(id),
    {
        self.id
    }
}

impl Clone for Texture {
    /// Another handle on the same cell: no new id, no new resource.
    fn clone(&self) -> (other: Self)
        ensures
            other == *self,
    {
        proof {
            use_type_invariant(self);
        }
        Texture { id: self.id, _ref: share(&self._ref) }
    }
}

impl PartialEq for Texture {
    fn eq(&self, other: &Self) -> (equal: bool) {
        self.id() == other.id()
    }
}

impl vstd::std_specs::cmp::PartialEqSpecImpl for Texture {
    open spec fn obeys_eq_spec() -> bool {
        true
    }

    /// Handles are equal when they name the same texture.
    open spec fn eq_spec(&self, other: &Self) -> bool {
        self@ == other@
    }
}

impl std::hash::Hash for Texture {
    /// Hashes the id and nothing else, so equal handles hash alike.
    fn hash<H: std::hash::Hasher>(&self, state: &mut H) {
        hash_id(self.id, state)
    }
}

/// Two texture handles are equal exactly when they were made from the same
/// id.
pub proof fn textures_equal_by_id(a: Texture, id_a: u64, b: Texture, id_b: u64)
    requires
        a@ == Resource::Texture(id_a),
        b@ == Resource::Texture(id_b),
    ensures
        a.eq_spec(&b) <==> id_a == id_b,
{
}

/// The clones of one texture handle are equal to it and to each other, and
/// so is a clone of a clone: all of them name the same texture.
pub proof fn texture_clones_are_equal(
    texture: Texture,
    first: Texture,
    second: Texture,
    further: Texture,
)
    requires
        first == texture,
        second == texture,
        further == first,
    ensures
        first.eq_spec(&texture),
        first.eq_spec(&second),
        further.eq_spec(&second),
        further.eq_spec(&texture),
        first@ == texture@,
        second@ == texture@,
        further@ == texture@,
{
}

} // verus!
