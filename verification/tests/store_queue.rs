use dist_semaphore::store::StoreQueue;

#[test]
fn rpush_reports_the_new_length() {
    let mut q = StoreQueue::new();
    let x = "x".to_string();
    let y = "y".to_string();
    assert_eq!(q.rpush(&x), 1);
    assert_eq!(q.rpush(&y), 2);
    assert_eq!(q.rpush(&x), 3);
}

#[test]
fn lpos_finds_the_first_occurrence_only() {
    let mut q = StoreQueue::new();
    let x = "x".to_string();
    let y = "y".to_string();
    let z = "z".to_string();
    q.rpush(&x);
    q.rpush(&y);
    q.rpush(&x);
    assert_eq!(q.lpos(&x), Some(0));
    assert_eq!(q.lpos(&y), Some(1));
    assert_eq!(q.lpos(&z), None);
}

#[test]
fn lpos_on_an_empty_queue_finds_nothing() {
    let q = StoreQueue::new();
    assert_eq!(q.lpos(&"x".to_string()), None);
}

#[test]
fn lpop_removes_from_the_head() {
    let mut q = StoreQueue::new();
    let a = "a".to_string();
    let b = "b".to_string();
    let c = "c".to_string();
    q.rpush(&a);
    q.rpush(&b);
    q.rpush(&c);
    assert_eq!(q.lpop(1), vec!["a".to_string()]);
    assert_eq!(q.lpos(&b), Some(0));
    assert_eq!(q.lpop(2), vec!["b".to_string(), "c".to_string()]);
    assert_eq!(q.lpos(&a), None);
}

#[test]
fn lpop_past_the_end_pops_what_is_there() {
    let mut q = StoreQueue::new();
    let a = "a".to_string();
    q.rpush(&a);
    assert_eq!(q.lpop(5), vec!["a".to_string()]);
    assert_eq!(q.lpop(5), Vec::<String>::new());
}

#[test]
fn expire_sets_and_resets_the_ttl() {
    let mut q = StoreQueue::new();
    assert_eq!(q.ttl(), None);
    q.expire(30);
    assert_eq!(q.ttl(), Some(30));
    // Refreshing repeatedly is idempotent, whatever the queue holds.
    q.expire(30);
    assert_eq!(q.ttl(), Some(30));
    q.rpush(&"x".to_string());
    q.expire(30);
    assert_eq!(q.ttl(), Some(30));
    q.expire(60);
    assert_eq!(q.ttl(), Some(60));
}

#[test]
fn release_pops_one_and_refreshes() {
    let mut q = StoreQueue::new();
    let a = "a".to_string();
    let b = "b".to_string();
    q.rpush(&a);
    q.rpush(&b);
    q.release(30);
    assert_eq!(q.lpos(&a), None);
    assert_eq!(q.lpos(&b), Some(0));
    assert_eq!(q.ttl(), Some(30));
}

#[test]
fn release_on_an_empty_queue_still_refreshes() {
    let mut q = StoreQueue::new();
    q.release(30);
    assert_eq!(q.lpos(&"x".to_string()), None);
    assert_eq!(q.ttl(), Some(30));
}
