use hf_mount::handle_pool::{HandlePool, HANDLE_POOL_CAPACITY};

fn full_pool() -> HandlePool {
    let mut pool = HandlePool::new();
    for i in 0..HANDLE_POOL_CAPACITY as u64 {
        pool.insert(i, i + 1000);
    }
    pool
}

#[test]
fn handle_pool_basic() {
    let mut pool = HandlePool::new();
    assert!(pool.peek(1).is_none());

    let result = pool.insert(1, 100);
    assert!(result.evicted.is_empty());
    assert!(result.replaced.is_none());
    assert_eq!(pool.peek(1), Some(100));
}

#[test]
fn handle_pool_lru_eviction() {
    let mut pool = HandlePool::new();
    for i in 0..HANDLE_POOL_CAPACITY as u64 {
        pool.insert(i, i + 1000);
    }
    // Promote ino=0 to MRU so the LRU is now ino=1.
    pool.acquire_shared(0);
    pool.unpin(0);

    let result = pool.insert(999, 9999);
    assert_eq!(result.evicted.len(), 1);
    assert_eq!(result.evicted[0], (1, 1001));
    assert!(result.replaced.is_none());

    assert!(pool.peek(1).is_none());
    assert_eq!(pool.peek(999), Some(9999));
}

#[test]
fn handle_pool_no_duplicate_on_reinsert() {
    let mut pool = HandlePool::new();
    pool.insert(1, 100);
    pool.insert(2, 200);
    // Re-insert ino=1 with new handle (e.g. replacing read with write)
    let result = pool.insert(1, 101);
    assert_eq!(result.replaced, Some(100), "old handle should be returned for release");
    assert!(result.evicted.is_empty());

    assert_eq!(pool.peek(1), Some(101));
    // order should have exactly 2 entries, not 3
    assert_eq!(pool.access_order().len(), 2);
}

#[test]
fn handle_pool_remove() {
    let mut pool = HandlePool::new();
    pool.insert(1, 100);
    pool.insert(2, 200);
    pool.insert(3, 300);

    assert_eq!(pool.remove(2), Some(200));
    assert!(pool.peek(2).is_none());
    assert_eq!(pool.access_order().len(), 2);
    assert_eq!(pool.len(), 2);
    // Remaining entries still work
    assert_eq!(pool.peek(1), Some(100));
    assert_eq!(pool.peek(3), Some(300));
}

#[test]
fn handle_pool_drain() {
    let mut pool = HandlePool::new();
    pool.insert(1, 100);
    pool.insert(2, 200);
    pool.insert(3, 300);

    let entries = pool.drain();
    assert_eq!(entries.len(), 3);
    assert!(pool.is_empty());
    assert!(pool.access_order().is_empty());
    // Entries contain all inserted pairs
    assert!(entries.contains(&(1, 100)));
    assert!(entries.contains(&(2, 200)));
    assert!(entries.contains(&(3, 300)));
}

#[test]
fn handle_pool_remove_nonexistent() {
    let mut pool = HandlePool::new();
    pool.insert(1, 100);
    assert_eq!(pool.remove(999), None); // no-op
    assert_eq!(pool.peek(1), Some(100));
    assert_eq!(pool.access_order().len(), 1);
}

#[test]
fn handle_pool_pinned_lru_grows_pool() {
    let mut pool = HandlePool::new();
    // Fill pool to capacity. ino=0 is the LRU entry.
    for i in 0..HANDLE_POOL_CAPACITY as u64 {
        pool.insert(i, i + 1000);
    }
    // Pin ino=0 in place so the LRU is unevictable.
    pool.pin(0);
    assert_eq!(pool.access_order().first(), Some(&0));

    // Insert one more: the pool grows rather than evicting a newer
    // unpinned entry (which could be a freshly-created file's handle).
    let result = pool.insert(999, 9999);
    assert!(result.evicted.is_empty(), "pinned LRU should not trigger eviction");
    assert_eq!(pool.len(), HANDLE_POOL_CAPACITY + 1);

    // All earlier entries still present.
    for i in 0..HANDLE_POOL_CAPACITY as u64 {
        assert!(pool.peek(i).is_some());
    }
    pool.unpin(0);
}

#[test]
fn handle_pool_unpin_allows_eviction() {
    let mut pool = HandlePool::new();
    for i in 0..HANDLE_POOL_CAPACITY as u64 {
        pool.insert(i, i + 1000);
    }
    // Pin in place (no promotion), then unpin so ino=0 is evictable LRU.
    pool.pin(0);
    pool.unpin(0);
    assert_eq!(pool.access_order().first(), Some(&0));

    // ino=0 is unpinned and at the front of the order, so it evicts.
    let result = pool.insert(999, 9999);
    assert_eq!(result.evicted.len(), 1);
    assert_eq!(result.evicted[0].0, 0, "unpinned LRU should evict normally");
}

#[test]
fn handle_pool_all_pinned_grows_beyond_capacity() {
    let mut pool = HandlePool::new();
    for i in 0..HANDLE_POOL_CAPACITY as u64 {
        pool.insert(i, i + 1000);
        pool.pin(i);
    }
    // All entries pinned: insert should succeed with no eviction
    let result = pool.insert(999, 9999);
    assert!(result.evicted.is_empty(), "no eviction when all entries are pinned");
    assert_eq!(pool.len(), HANDLE_POOL_CAPACITY + 1);

    // Unpin all
    for i in 0..HANDLE_POOL_CAPACITY as u64 {
        pool.unpin(i);
    }

    // Next insert should reclaim overflow entries
    let result = pool.insert(998, 9998);
    // Should evict enough to bring pool back to capacity (evict 2: the
    // overflow entry 999 is MRU, so oldest unpinned entries are evicted)
    assert!(result.evicted.len() >= 2, "pool should shrink after overflow");
    assert!(pool.len() <= HANDLE_POOL_CAPACITY + 1);
}

#[test]
fn handle_pool_acquire_shared_stacks_pins() {
    let mut pool = HandlePool::new();
    assert!(pool.acquire_shared(1).is_none());

    pool.insert(1, 100);
    assert_eq!(pool.acquire_shared(1), Some(100));
    assert_eq!(pool.acquire_shared(1), Some(100));
    assert_eq!(pool.pin_count(1), 2);

    pool.unpin(1);
    pool.unpin(1);
    assert_eq!(pool.pin_count(1), 0);
}

#[test]
fn eviction_takes_the_oldest() {
    let mut pool = full_pool();
    let result = pool.insert(500, 1);
    assert_eq!(result.evicted, vec![(0, 1000)]);
    assert_eq!(pool.len(), HANDLE_POOL_CAPACITY);
    assert_eq!(pool.access_order().last(), Some(&500));
}

#[test]
fn a_pool_after_overflow_shrinks_to_its_capacity() {
    let mut pool = full_pool();
    pool.pin(0);
    pool.insert(500, 1);
    pool.insert(501, 2);
    pool.unpin(0);
    let result = pool.insert(502, 3);
    assert_eq!(result.evicted, vec![(0, 1000), (1, 1001), (2, 1002)]);
    assert_eq!(pool.len(), HANDLE_POOL_CAPACITY);
}

#[test]
fn each_handle_is_handed_back_once() {
    let mut pool = HandlePool::new();
    pool.insert(1, 100);
    pool.insert(2, 200);
    assert_eq!(pool.insert(1, 101).replaced, Some(100));
    assert_eq!(pool.drain(), vec![(2, 200), (1, 101)]);
    assert_eq!(pool.drain(), vec![]);
    assert_eq!(pool.remove(1), None);
}

#[test]
fn uses_are_counted() {
    let mut pool = HandlePool::new();
    assert_eq!(pool.pin(7), None);
    assert_eq!(pool.pin_count(7), 0);
    pool.unpin(7);
    pool.insert(7, 70);
    assert_eq!(pool.pin(7), Some(70));
    assert_eq!(pool.acquire_shared(7), Some(70));
    assert_eq!(pool.pin_count(7), 2);
    pool.unpin(7);
    assert_eq!(pool.pin_count(7), 1);
    pool.unpin(7);
    pool.unpin(7);
    assert_eq!(pool.pin_count(7), 0);
}

#[test]
fn a_replaced_handle_keeps_its_uses_off_the_new_one() {
    let mut pool = HandlePool::new();
    pool.insert(1, 100);
    pool.pin(1);
    pool.insert(1, 101);
    assert_eq!(pool.peek(1), Some(101));
    assert_eq!(pool.pin_count(1), 0);
}
