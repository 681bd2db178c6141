use yatis::pool::ApiPool;

#[test]
fn rotation_size_is_restored_after_every_call() {
    let mut pool = ApiPool::new(10u64);
    pool.add(20);
    pool.add(30);
    assert_eq!(pool.len(), 3);

    // many callers, served one at a time: the size is back to 3 after each
    for _ in 0..7 {
        let served = pool.with_api(|h| (h, h));
        assert!(served == 10 || served == 20 || served == 30);
        assert_eq!(pool.len(), 3);
    }
}

#[test]
fn calls_are_served_round_robin() {
    let mut pool = ApiPool::new(1u64);
    pool.add(2);
    pool.add(3);

    let mut served = Vec::new();
    for _ in 0..6 {
        served.push(pool.with_api(|h| (h, h)));
    }
    // two full cycles: every handle served once per window of three calls
    assert_eq!(served, vec![1, 2, 3, 1, 2, 3]);
}

#[test]
fn a_call_may_replace_its_handle() {
    let mut pool = ApiPool::new(5u64);
    let doubled = pool.with_api(|h| (h * 2, h));
    assert_eq!(doubled, 5);
    assert_eq!(pool.len(), 1);
    assert_eq!(pool.with_api(|h| (h, h)), 10);
}

#[test]
fn get_hands_out_the_head_and_keeps_rotating() {
    let mut pool = ApiPool::new(String::from("a"));
    pool.add(String::from("b"));

    let held = pool.get();
    assert_eq!(held, "a");
    assert_eq!(pool.len(), 2);

    // the clone keeps rotating for unary callers
    assert_eq!(pool.with_api(|h| (h.clone(), h)), "b");
    assert_eq!(pool.with_api(|h| (h.clone(), h)), "a");
}

#[test]
fn checkout_shrinks_and_checkin_restores() {
    let mut pool = ApiPool::new(1u32);
    pool.add(2);
    let h = pool.checkout();
    assert_eq!(h, 1);
    assert_eq!(pool.len(), 1);
    pool.checkin(h);
    assert_eq!(pool.len(), 2);
}
