use gfx_core::resource::{PendingSet, Resource, ResourceCleaner};

#[test]
fn add_resource() {
    let cleaner = ResourceCleaner::default();
    assert_eq!(cleaner.len(), 0);
    cleaner.add(Resource::Buffer(0));
    assert_eq!(cleaner.len(), 1);
}

#[test]
fn do_not_add_resource_twice() {
    let cleaner = ResourceCleaner::default();
    assert_eq!(cleaner.len(), 0);
    cleaner.add(Resource::Buffer(0));
    assert_eq!(cleaner.len(), 1);
    cleaner.add(Resource::Buffer(0));
    assert_eq!(cleaner.len(), 1);
}

#[test]
fn clear_list() {
    let cleaner = ResourceCleaner::default();
    let ids = [0, 1, 2, 3, 4];
    ids.iter().for_each(|n| cleaner.add(Resource::Buffer(*n)));
    assert_eq!(cleaner.len(), ids.len());
    cleaner.reset();
    assert_eq!(cleaner.len(), 0);
}

#[test]
fn adding_buffer_three_twice_leaves_one_pending() {
    let cleaner = ResourceCleaner::default();
    cleaner.add(Resource::Buffer(3));
    cleaner.add(Resource::Buffer(3));
    assert_eq!(cleaner.len(), 1);
    assert_eq!(cleaner.snapshot(), vec![Resource::Buffer(3)]);
}

#[test]
fn reset_of_an_empty_cleaner_leaves_it_empty() {
    let cleaner = ResourceCleaner::default();
    cleaner.reset();
    assert_eq!(cleaner.len(), 0);
    assert!(cleaner.snapshot().is_empty());
}

#[test]
fn cleaner_is_usable_again_after_reset() {
    let cleaner = ResourceCleaner::default();
    cleaner.add(Resource::Texture(9));
    cleaner.reset();
    cleaner.add(Resource::Texture(9));
    assert_eq!(cleaner.len(), 1);
    assert_eq!(cleaner.snapshot(), vec![Resource::Texture(9)]);
}

#[test]
fn clones_of_a_cleaner_share_one_set() {
    let cleaner = ResourceCleaner::default();
    let other = cleaner.clone();
    other.add(Resource::Pipeline(1));
    assert_eq!(cleaner.len(), 1);
    cleaner.add(Resource::Pipeline(1));
    assert_eq!(other.len(), 1);
    cleaner.reset();
    assert_eq!(other.len(), 0);
}

#[test]
fn separate_cleaners_do_not_share() {
    let one = ResourceCleaner::default();
    let two = ResourceCleaner::default();
    one.add(Resource::Buffer(1));
    assert_eq!(one.len(), 1);
    assert_eq!(two.len(), 0);
}

#[test]
fn same_id_of_different_kinds_is_kept_apart() {
    let cleaner = ResourceCleaner::default();
    cleaner.add(Resource::Buffer(5));
    cleaner.add(Resource::Texture(5));
    cleaner.add(Resource::Pipeline(5));
    cleaner.add(Resource::RenderTexture(5));
    assert_eq!(cleaner.len(), 4);

    let mut batch = cleaner.snapshot();
    batch.sort_by_key(|resource| match resource {
        Resource::Buffer(_) => 0,
        Resource::Texture(_) => 1,
        Resource::Pipeline(_) => 2,
        Resource::RenderTexture(_) => 3,
    });
    assert_eq!(
        batch,
        vec![
            Resource::Buffer(5),
            Resource::Texture(5),
            Resource::Pipeline(5),
            Resource::RenderTexture(5),
        ]
    );
}

#[test]
fn resource_tags_compare_by_kind_and_id() {
    assert_eq!(Resource::Buffer(1), Resource::Buffer(1));
    assert_ne!(Resource::Buffer(1), Resource::Buffer(2));
    assert_ne!(Resource::Buffer(1), Resource::Texture(1));
    assert_ne!(Resource::Pipeline(1), Resource::RenderTexture(1));
}

#[test]
fn pending_set_starts_empty() {
    let pending = PendingSet::new();
    assert_eq!(pending.len(), 0);
    assert!(!pending.contains(Resource::Buffer(0)));
    assert!(pending.snapshot().is_empty());
}

#[test]
fn pending_set_add_is_idempotent() {
    let mut pending = PendingSet::new();
    pending.add(Resource::RenderTexture(8));
    assert_eq!(pending.len(), 1);
    assert!(pending.contains(Resource::RenderTexture(8)));
    pending.add(Resource::RenderTexture(8));
    assert_eq!(pending.len(), 1);
    pending.add(Resource::RenderTexture(8));
    assert_eq!(pending.len(), 1);
    assert_eq!(pending.snapshot(), vec![Resource::RenderTexture(8)]);
}

#[test]
fn pending_set_reset_removes_everything() {
    let mut pending = PendingSet::new();
    for id in 0..5 {
        pending.add(Resource::Buffer(id));
    }
    assert_eq!(pending.len(), 5);
    pending.reset();
    assert_eq!(pending.len(), 0);
    for id in 0..5 {
        assert!(!pending.contains(Resource::Buffer(id)));
    }
}

#[test]
fn pending_set_tells_kinds_and_ids_apart() {
    let mut pending = PendingSet::new();
    pending.add(Resource::Texture(0));
    assert!(pending.contains(Resource::Texture(0)));
    assert!(!pending.contains(Resource::Buffer(0)));
    assert!(!pending.contains(Resource::Pipeline(0)));
    assert!(!pending.contains(Resource::RenderTexture(0)));
    assert!(!pending.contains(Resource::Texture(1)));
}

#[test]
fn pending_set_holds_the_largest_and_smallest_ids() {
    let mut pending = PendingSet::new();
    pending.add(Resource::Buffer(0));
    pending.add(Resource::Buffer(u64::MAX));
    pending.add(Resource::Texture(0));
    pending.add(Resource::RenderTexture(u64::MAX));
    assert_eq!(pending.len(), 4);
    assert!(pending.contains(Resource::Buffer(u64::MAX)));
    assert!(pending.contains(Resource::Texture(0)));
    assert!(!pending.contains(Resource::Texture(u64::MAX)));
    assert!(!pending.contains(Resource::Pipeline(0)));
    assert!(pending.contains(Resource::RenderTexture(u64::MAX)));

    let mut batch = pending.snapshot();
    batch.sort_by_key(|resource| match resource {
        Resource::Buffer(id) => (0, *id),
        Resource::Texture(id) => (1, *id),
        Resource::Pipeline(id) => (2, *id),
        Resource::RenderTexture(id) => (3, *id),
    });
    assert_eq!(
        batch,
        vec![
            Resource::Buffer(0),
            Resource::Buffer(u64::MAX),
            Resource::Texture(0),
            Resource::RenderTexture(u64::MAX),
        ]
    );
}

#[test]
fn snapshot_lists_each_pending_resource_once() {
    let mut pending = PendingSet::new();
    for id in 0..100 {
        pending.add(Resource::Pipeline(id));
        pending.add(Resource::Pipeline(id));
    }
    let mut ids: Vec<u64> = pending
        .snapshot()
        .iter()
        .map(|resource| match resource {
            Resource::Pipeline(id) => *id,
            other => panic!("unexpected {:?}", other),
        })
        .collect();
    ids.sort();
    assert_eq!(ids, (0..100).collect::<Vec<u64>>());
}

#[test]
fn snapshot_leaves_the_set_as_it_was() {
    let cleaner = ResourceCleaner::default();
    cleaner.add(Resource::Buffer(1));
    let first = cleaner.snapshot();
    let second = cleaner.snapshot();
    assert_eq!(first, second);
    assert_eq!(cleaner.len(), 1);
}
