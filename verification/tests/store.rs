use rate_limiter::store::TokenStore;

#[test]
fn new_starts_full() {
    let store = TokenStore::new(7, 2);
    assert_eq!(store.available(), 7);
    assert_eq!(store.capacity(), 7);
    assert_eq!(store.refill_amount(), 2);
}

#[test]
fn take_decrements_by_one() {
    let mut store = TokenStore::new(3, 1);
    assert!(store.try_take());
    assert_eq!(store.available(), 2);
    assert!(store.try_take());
    assert_eq!(store.available(), 1);
}

#[test]
fn full_bucket_admits_exactly_capacity() {
    let mut store = TokenStore::new(4, 0);
    for _ in 0..4 {
        assert!(store.try_take());
    }
    assert!(!store.try_take());
    assert_eq!(store.available(), 0);
}

#[test]
fn failed_take_leaves_store_unchanged() {
    let mut store = TokenStore::new(1, 0);
    assert!(store.try_take());
    assert!(!store.try_take());
    assert!(!store.try_take());
    assert_eq!(store.available(), 0);
    assert_eq!(store.capacity(), 1);
}

#[test]
fn refill_after_exhaustion_with_zero_amount_never_revives() {
    let mut store = TokenStore::new(2, 0);
    assert!(store.try_take());
    assert!(store.try_take());
    assert!(!store.try_take());
    store.refill();
    assert!(!store.try_take());
    assert_eq!(store.available(), 0);
}

#[test]
fn refill_after_exhaustion_with_positive_amount_revives() {
    let mut store = TokenStore::new(2, 1);
    assert!(store.try_take());
    assert!(store.try_take());
    assert!(!store.try_take());
    store.refill();
    assert!(store.try_take());
}

#[test]
fn refill_clamps_to_capacity() {
    let mut store = TokenStore::new(10, 5);
    assert!(store.try_take());
    assert_eq!(store.available(), 9);
    store.refill();
    assert_eq!(store.available(), 10);
}

#[test]
fn refill_adds_exact_amount_when_below_ceiling() {
    let mut store = TokenStore::new(10, 3);
    for _ in 0..10 {
        assert!(store.try_take());
    }
    store.refill();
    assert_eq!(store.available(), 3);
    store.refill();
    assert_eq!(store.available(), 6);
}

#[test]
fn clamp_recomputes_each_tick_without_banking_excess() {
    let mut store = TokenStore::new(10, 5);
    assert!(store.try_take());
    store.refill();
    assert_eq!(store.available(), 10);
    store.refill();
    assert_eq!(store.available(), 10);
    for _ in 0..10 {
        assert!(store.try_take());
    }
    store.refill();
    assert_eq!(store.available(), 5);
}

#[test]
fn available_stays_in_range_under_mixed_operations() {
    let mut store = TokenStore::new(3, 2);
    for round in 0..20 {
        if round % 3 == 0 {
            store.refill();
        } else {
            store.try_take();
        }
        let n = store.available();
        assert!(0 <= n && n <= 3);
    }
}

#[test]
fn zero_capacity_never_grants() {
    let mut store = TokenStore::new(0, 5);
    assert!(!store.try_take());
    store.refill();
    assert!(!store.try_take());
    assert_eq!(store.available(), 0);
}

#[test]
fn negative_capacity_never_grants() {
    let mut store = TokenStore::new(-3, 5);
    assert_eq!(store.available(), -3);
    assert!(!store.try_take());
    store.refill();
    assert!(!store.try_take());
    assert_eq!(store.available(), -3);
}
