use sovd2uds_adapter::pool::SessionPool;
use std::sync::Arc;

#[test]
fn pool_keeps_first_session_per_id() {
    let mut pool: SessionPool<Arc<u32>> = SessionPool::new();
    let first = Arc::new(1);
    assert!(pool.insert("engine".to_string(), Arc::clone(&first)));
    for n in 2..10 {
        assert!(!pool.insert("engine".to_string(), Arc::new(n)));
    }
    for _ in 0..5 {
        let got = pool.get("engine").unwrap();
        assert!(Arc::ptr_eq(got, &first));
    }
}

#[test]
fn pool_remove_and_drain() {
    let mut pool: SessionPool<u32> = SessionPool::new();
    assert!(pool.get("abs").is_none());
    pool.insert("abs".to_string(), 1);
    pool.insert("engine".to_string(), 2);
    pool.insert("airbag".to_string(), 3);
    assert_eq!(pool.remove("engine"), Some(2));
    assert_eq!(pool.remove("engine"), None);
    assert!(pool.get("engine").is_none());
    let mut all = pool.drain();
    all.sort();
    assert_eq!(all, vec![1, 3]);
    assert!(pool.get("abs").is_none());
    assert!(pool.drain().is_empty());
}
