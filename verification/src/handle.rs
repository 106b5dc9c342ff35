//! The cell that the clones of one handle share.

use crate::resource::{Resource, ResourceCleaner};
use vstd::prelude::*;

verus! {

/// What all clones of one handle point to: the tag of the resource and the
/// cleaner of the backend that made it. The cell goes away with the last
/// clone, and on its way out hands the tag to the cleaner.
#[derive(Debug)]
pub(crate) struct HandleCell {
    pub(crate) tag: Resource,
    pub(crate) cleaner: ResourceCleaner,
}

impl HandleCell {
    pub(crate) fn new(tag: Resource, cleaner: ResourceCleaner) -> (cell: Self)
        ensures
            cell.tag == tag,
            cell.cleaner == cleaner,
    {
        HandleCell { tag, cleaner }
    }

    /// Asks the cleaner of the cell to record its tag: one `add`, of this tag.
    pub(crate) fn release(&self) {
        self.cleaner.add(self.tag);
    }
}

impl Drop for HandleCell {
    /// `Drop::drop`, which the language runs once, when the last `Arc` that
    /// points to the cell is dropped. The body is the one call of `release`.
    ///
    /// Nothing is proved of it: a destructor is not called by verified code,
    /// and `release` may block on the lock of the cleaner.
    #[verifier::external_body]
    fn drop(&mut self)
        opens_invariants none
        no_unwind
    {
        self.release();
    }
}

/// `Hash::hash` of `u64`: feeds `id`, and nothing else, to the hasher. Nothing
/// is claimed of the hasher afterwards.
#[verifier::external_body]
pub(crate) fn hash_id<H: std::hash::Hasher>(id: u64, state: &mut H) {
    std::hash::Hash::hash(&id, state)
}

} // verus!
