//! Resource tags and the set of tags that wait for the backend to release
//! them.

use crate::sync::{new_lock, read_access, share, value, value_mut, write_access};
use parking_lot::lock_api::RwLock;
use parking_lot::RawRwLock;
use std::collections::HashSet;
use std::sync::Arc;
use vstd::prelude::*;
use vstd::std_specs::iter::IteratorSpec;

verus! {

broadcast use vstd::std_specs::hash::group_hash_axioms;

/// Names one object on the GPU side: its kind and the id the backend gave it.
/// Two tags are the same when kind and id are.
#[derive(Debug, Copy, Clone, Eq, PartialEq, Hash, Structural)]
pub enum Resource {
    Buffer(u64),
    Texture(u64),
    Pipeline(u64),
    RenderTexture(u64),
}

/// Number of ids of one kind; the keys of each kind fill one span of this size.
const ID_SPAN: u128 = 0x1_0000_0000_0000_0000;

/// Number of keys over all kinds.
const KEY_SPAN: u128 = 0x4_0000_0000_0000_0000;

impl Resource {
    /// The id the tag carries.
    pub open spec fn id(self) -> u64 {
        match self {
            Resource::Buffer(id) => id,
            Resource::Texture(id) => id,
            Resource::Pipeline(id) => id,
            Resource::RenderTexture(id) => id,
        }
    }

    /// Position of the tag's kind among the four kinds.
    spec fn kind_index(self) -> int {
        match self {
            Resource::Buffer(_) => 0,
            Resource::Texture(_) => 1,
            Resource::Pipeline(_) => 2,
            Resource::RenderTexture(_) => 3,
        }
    }

    /// The integer under which the tag is stored: the kinds one after the
    /// other, each with all its ids.
    spec fn key(self) -> u128 {
        (self.kind_index() * ID_SPAN + self.id()) as u128
    }

    /// The tag stored under a key.
    spec fn of_key(key: u128) -> Resource {
        let id = (key % ID_SPAN) as u64;
        let kind = key / ID_SPAN;
        if kind == 0 {
            Resource::Buffer(id)
        } else if kind == 1 {
            Resource::Texture(id)
        } else if kind == 2 {
            Resource::Pipeline(id)
        } else {
            Resource::RenderTexture(id)
        }
    }

    /// Every tag has a key below `KEY_SPAN` and is found again from it.
    proof fn lemma_tag_from_its_key(self)
        ensures
            self.key() < KEY_SPAN,
            Resource::of_key(self.key()) == self,
    {
    }

    /// Every key below `KEY_SPAN` is the key of the tag stored under it.
    proof fn lemma_key_from_its_tag(key: u128)
        requires
            key < KEY_SPAN,
        ensures
            Resource::of_key(key).key() == key,
    {
    }

    /// Reads the tag back from its key.
    fn from_key(key: u128) -> (resource: Resource)
        requires
            key < KEY_SPAN,
        ensures
            resource == Resource::of_key(key),
    {
        let id = (key % ID_SPAN) as u64;
        let kind = key / ID_SPAN;
        if kind == 0 {
            Resource::Buffer(id)
        } else if kind == 1 {
            Resource::Texture(id)
        } else if kind == 2 {
            Resource::Pipeline(id)
        } else {
            Resource::RenderTexture(id)
        }
    }

    /// Computes the key of the tag.
    fn to_key(&self) -> (key: u128)
        ensures
            key == self.key(),
            key < KEY_SPAN,
    {
        match self {
            Resource::Buffer(id) => *id as u128,
            Resource::Texture(id) => ID_SPAN + *id as u128,
            Resource::Pipeline(id) => 2 * ID_SPAN + *id as u128,
            Resource::RenderTexture(id) => 3 * ID_SPAN + *id as u128,
        }
    }
}

/// The tags stored under a set of keys.
spec fn tags_of(keys: Set<u128>) -> Set<Resource> {
    Set::new(|resource: Resource| keys.contains(resource.key()))
}

/// Over keys below `KEY_SPAN` there are as many tags as keys.
proof fn lemma_tags_len(keys: Set<u128>)
    requires
        keys.finite(),
        forall|key: u128| keys.contains(key) ==> key < KEY_SPAN,
    ensures
        tags_of(keys).finite(),
        tags_of(keys).len() == keys.len(),
{
    let decode = |key: u128| Resource::of_key(key);
    assert forall|a: u128, b: u128|
        keys.contains(a) && keys.contains(b) && #[trigger] decode(a) == #[trigger] decode(b) implies a
        == b by {
        Resource::lemma_key_from_its_tag(a);
        Resource::lemma_key_from_its_tag(b);
    }
    assert forall|resource: Resource| tags_of(keys).contains(resource) <==> keys.map(
        decode,
    ).contains(resource) by {
        resource.lemma_tag_from_its_key();
        if tags_of(keys).contains(resource) {
            assert(keys.contains(resource.key()) && decode(resource.key()) == resource);
        }
        if keys.map(decode).contains(resource) {
            let key = choose|key: u128| keys.contains(key) && decode(key) == resource;
            Resource::lemma_key_from_its_tag(key);
        }
    }
    assert(tags_of(keys) =~= keys.map(decode));
    vstd::set_lib::lemma_map_size(keys, tags_of(keys), decode);
}

/// Tags read off a duplicate-free listing of a set of keys below `KEY_SPAN`
/// list the tags of that set, each once.
proof fn lemma_tags_in_order(keys: Set<u128>, order: Seq<u128>, tags: Seq<Resource>)
    requires
        order.no_duplicates(),
        order.to_set() == keys,
        forall|key: u128| keys.contains(key) ==> key < KEY_SPAN,
        tags.len() == order.len(),
        forall|i: int| 0 <= i < order.len() ==> tags[i] == Resource::of_key(order[i]),
    ensures
        tags.no_duplicates(),
        tags.to_set() == tags_of(keys),
{
    assert forall|i: int, j: int| 0 <= i < tags.len() && 0 <= j < tags.len() && i != j implies tags[i]
        != tags[j] by {
        assert(keys.contains(order[i]) && keys.contains(order[j]));
        Resource::lemma_key_from_its_tag(order[i]);
        Resource::lemma_key_from_its_tag(order[j]);
    }
    assert forall|resource: Resource| tags.to_set().contains(resource) <==> tags_of(
        keys,
    ).contains(resource) by {
        if tags.to_set().contains(resource) {
            let i = choose|i: int| 0 <= i < tags.len() && tags[i] == resource;
            assert(keys.contains(order[i]));
            Resource::lemma_key_from_its_tag(order[i]);
        }
        if tags_of(keys).contains(resource) {
            resource.lemma_tag_from_its_key();
            assert(order.to_set().contains(resource.key()));
            let i = choose|i: int| 0 <= i < order.len() && order[i] == resource.key();
            assert(tags[i] == resource);
        }
    }
    assert(tags.to_set() =~= tags_of(keys));
}

/// The keys of a hash set are finitely many.
proof fn lemma_keys_finite(keys: &HashSet<u128>)
    ensures
        keys@.finite(),
{
    let walk = vstd::std_specs::hash::spec_hash_keys_iter(keys);
    vstd::std_specs::hash::axiom_spec_hash_keys_iter(keys);
    vstd::seq_lib::seq_to_set_is_finite(walk.remaining().unref());
}

/// The resources whose release is pending: a set, so a tag that is added
/// while it is already waiting is not recorded a second time.
///
/// The tags are kept in a hash set under integer keys, the form of key for
/// which the behaviour of the standard hash set is specified.
#[derive(Debug)]
pub struct PendingSet {
    keys: HashSet<u128>,
}

impl View for PendingSet {
    type V = Set<Resource>;

    /// The recorded tags.
    closed spec fn view(&self) -> Set<Resource> {
        tags_of(self.keys@)
    }
}

impl PendingSet {
    /// Every stored key is the key of a tag.
    #[verifier::type_invariant]
    spec fn well_formed(self) -> bool {
        forall|key: u128| self.keys@.contains(key) ==> key < KEY_SPAN
    }

    /// An empty set.
    pub fn new() -> (pending: Self)
        ensures
            pending@ == Set::<Resource>::empty(),
    {
        let pending = PendingSet { keys: HashSet::new() };
        assert(pending@ =~= Set::<Resource>::empty());
        pending
    }

    /// Records `resource`. Nothing changes when it was recorded already.
    pub fn add(&mut self, resource: Resource)
        ensures
            final(self)@ == old(self)@.insert(resource),
            old(self)@.contains(resource) ==> final(self)@ == old(self)@,
    {
        proof {
            use_type_invariant(&*self);
        }
        let key = resource.to_key();
        let mut keys = HashSet::new();
        std::mem::swap(&mut keys, &mut self.keys);
        keys.insert(key);
        self.keys = keys;
        proof {
            assert forall|other: Resource|
                final(self)@.contains(other) <==> old(self)@.insert(resource).contains(
                    other,
                ) by {
                other.lemma_tag_from_its_key();
                resource.lemma_tag_from_its_key();
            }
            assert(final(self)@ =~= old(self)@.insert(resource));
            if old(self)@.contains(resource) {
                assert(old(self)@.insert(resource) =~= old(self)@);
            }
        }
    }

    /// Forgets every recorded resource, whatever was recorded.
    pub fn reset(&mut self)
        ensures
            final(self)@ == Set::<Resource>::empty(),
            final(self)@.len() == 0,
    {
        let mut keys = HashSet::new();
        std::mem::swap(&mut keys, &mut self.keys);
        keys.clear();
        self.keys = keys;
        assert(self@ =~= Set::<Resource>::empty());
    }

    /// Number of recorded resources.
    pub fn len(&self) -> (count: usize)
        ensures
            self@.finite(),
            count == self@.len(),
    {
        proof {
            use_type_invariant(self);
            lemma_keys_finite(&self.keys);
            lemma_tags_len(self.keys@);
        }
        self.keys.len()
    }

    /// The recorded resources, each once. Their order is that in which the
    /// hash table holds them, which no caller can rely on.
    pub fn snapshot(&self) -> (batch: Vec<Resource>)
        ensures
            batch@.no_duplicates(),
            batch@.to_set() == self@,
            batch@.len() == self@.len(),
    {
        proof {
            use_type_invariant(self);
            lemma_keys_finite(&self.keys);
            lemma_tags_len(self.keys@);
        }
        let ghost order = vstd::std_specs::hash::spec_hash_keys_iter(&self.keys).remaining();
        let mut batch: Vec<Resource> = Vec::new();
        for key in walk: self.keys.iter()
            invariant
                walk.seq() == order,
                order.unref().to_set() == self.keys@,
                forall|key: u128| self.keys@.contains(key) ==> key < KEY_SPAN,
                batch@.len() == walk.index(),
                forall|i: int| 0 <= i < walk.index() ==> batch@[i] == Resource::of_key(*order[i]),
        {
            assert(order.unref().to_set().contains(*key));
            batch.push(Resource::from_key(*key));
        }
        proof {
            assert(batch@.len() == order.len());
            lemma_tags_in_order(self.keys@, order.unref(), batch@);
        }
        batch
    }

    /// Whether `resource` is recorded.
    pub fn contains(&self, resource: Resource) -> (found: bool)
        ensures
            found == self@.contains(resource),
    {
        let key = resource.to_key();
        self.keys.contains(&key)
    }
}

/// `add` is idempotent: when the same resource is added twice in a row, the
/// second `add` leaves the set, and with it its size, as the first left it.
pub proof fn add_is_idempotent(
    before: PendingSet,
    once: PendingSet,
    twice: PendingSet,
    resource: Resource,
)
    requires
        once@ == before@.insert(resource),
        twice@ == once@.insert(resource),
    ensures
        twice@ == once@,
        twice@.len() == once@.len(),
{
    assert(twice@ =~= once@);
}

/// The pending set of one backend, shared by every handle the backend gave out
/// and by the driver that hands the set to the backend for release. Cloning
/// gives another reference to the same set.
///
/// Any thread may change the set between two calls, so the contracts of this
/// type say nothing of what it holds. Each method locks the set, makes one call
/// on the `PendingSet` in it and unlocks: what that call does is stated at
/// `PendingSet`.
#[derive(Debug)]
pub struct ResourceCleaner {
    to_clean: Arc<RwLock<RawRwLock, PendingSet>>,
}

impl Default for ResourceCleaner {
    /// A cleaner with a pending set of its own, which starts empty.
    fn default() -> Self {
        ResourceCleaner { to_clean: Arc::new(new_lock(PendingSet::new())) }
    }
}

impl Clone for ResourceCleaner {
    /// Another reference to the same pending set.
    fn clone(&self) -> (other: Self)
        ensures
            other == *self,
    {
        ResourceCleaner { to_clean: share(&self.to_clean) }
    }
}

impl ResourceCleaner {
    /// Under the write lock, `PendingSet::add`.
    pub fn add(&self, resource: Resource) {
        let mut guard = write_access(&self.to_clean);
        let pending = value_mut(&mut guard);
        pending.add(resource);
    }

    /// Under the write lock, `PendingSet::reset`. What was added after the
    /// caller last read the set is cleared with the rest.
    pub fn reset(&self) {
        let mut guard = write_access(&self.to_clean);
        let pending = value_mut(&mut guard);
        pending.reset();
    }

    /// Under the read lock, `PendingSet::len`: the number of resources that
    /// were pending while the lock was held. Other threads may have added or
    /// cleared some since, so any count can come back.
    pub fn len(&self) -> usize {
        let guard = read_access(&self.to_clean);
        value(&guard).len()
    }

    /// Under the read lock, `PendingSet::snapshot`: the resources that were
    /// pending while the lock was held, each once. Which resources those are
    /// depends on what other threads did before, so only the absence of
    /// duplicates holds of every batch.
    pub fn snapshot(&self) -> (batch: Vec<Resource>)
        ensures
            batch@.no_duplicates(),
    {
        let guard = read_access(&self.to_clean);
        value(&guard).snapshot()
    }
}

} // verus!
