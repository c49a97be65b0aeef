use sync_wrapper::InteractError;
use sync_wrapper::InteractOutcome;
use sync_wrapper::SyncWrapper;

fn wrap(n: u64) -> SyncWrapper<u64, String> {
    match SyncWrapper::new(Ok(n)) {
        Ok(w) => w,
        Err(_) => panic!("a successful factory must yield a wrapper"),
    }
}

#[test]
fn new_wraps_factory_success() {
    let w = wrap(7);
    assert_eq!(*w.inner_obj(), 7);
    assert!(!w.is_mutex_poisoned());
}

#[test]
fn new_passes_factory_error_through() {
    let r: Result<SyncWrapper<u64, String>, String> = SyncWrapper::new(Err("no backend".to_string()));
    match r {
        Ok(_) => panic!("a failing factory must not yield a wrapper"),
        Err(e) => assert_eq!(e, "no backend"),
    }
}

#[test]
fn interact_success_updates_object() {
    let mut w = wrap(1);
    let r: Result<u64, InteractError<String>> = w.interact(InteractOutcome::Completed(5, Ok(99)));
    match r {
        Ok(v) => assert_eq!(v, 99),
        Err(_) => panic!("a completed closure's Ok must come back as Ok"),
    }
    assert_eq!(*w.inner_obj(), 5);
    assert!(!w.is_mutex_poisoned());
}

#[test]
fn interact_backend_error_passes_through() {
    let mut w = wrap(1);
    let r: Result<u64, InteractError<String>> =
        w.interact(InteractOutcome::Completed(2, Err("backend boom".to_string())));
    match r {
        Err(InteractError::Backend(e)) => assert_eq!(e, "backend boom"),
        _ => panic!("a closure's Err must come back as Backend"),
    }
    assert_eq!(*w.inner_obj(), 2);
    assert!(!w.is_mutex_poisoned());
}

#[test]
fn interact_panic_poisons_and_keeps_object() {
    let mut w = wrap(5);
    let r: Result<u64, InteractError<String>> = w.interact(InteractOutcome::Panicked(5));
    assert!(matches!(r, Err(InteractError::Panic)));
    assert!(w.is_mutex_poisoned());
    // the object survives the panic in whatever state the closure left it
    assert_eq!(*w.inner_obj(), 5);
    // an interaction that tolerates the poison still runs and sees that state
    let r2: Result<u64, InteractError<String>> = w.interact(InteractOutcome::Completed(5, Ok(5)));
    assert!(matches!(r2, Ok(5)));
    assert!(w.is_mutex_poisoned());
}

#[test]
fn clear_poison_recovers_pre_panic_state() {
    let mut w = wrap(5);
    let _: Result<u64, InteractError<String>> = w.interact(InteractOutcome::Panicked(5));
    assert!(w.is_mutex_poisoned());
    w.clear_poison();
    assert!(!w.is_mutex_poisoned());
    let r: Result<u64, InteractError<String>> = w.interact(InteractOutcome::Completed(5, Ok(5)));
    assert!(matches!(r, Ok(5)));
    assert_eq!(*w.inner_obj(), 5);
}

#[test]
fn aborted_leaves_lock_free() {
    let mut w = wrap(3);
    let r: Result<u64, InteractError<String>> = w.interact(InteractOutcome::Aborted);
    assert!(matches!(r, Err(InteractError::Aborted)));
    assert!(!w.is_mutex_poisoned());
    assert_eq!(*w.inner_obj(), 3);
    // a following interaction acquires the lock promptly
    let r2: Result<u64, InteractError<String>> = w.interact(InteractOutcome::Completed(4, Ok(4)));
    assert!(matches!(r2, Ok(4)));
}

#[test]
fn hundred_increments_serialize() {
    let mut w = wrap(0);
    let mut seen: Vec<u64> = Vec::new();
    let mut i: u64 = 0;
    while i < 100 {
        let cur = *w.inner_obj();
        let r: Result<u64, InteractError<String>> =
            w.interact(InteractOutcome::Completed(cur + 1, Ok(cur + 1)));
        match r {
            Ok(v) => seen.push(v),
            Err(_) => panic!("an increment interaction must succeed"),
        }
        i += 1;
    }
    // the returned values are exactly 1..=100, in order, no duplicates, no gaps
    let expected: Vec<u64> = (1..=100).collect();
    assert_eq!(seen, expected);
    assert_eq!(*w.inner_obj(), 100);
    assert!(!w.is_mutex_poisoned());
}

#[test]
fn dispose_returns_the_object() {
    let w = wrap(42);
    assert_eq!(w.dispose(), 42);
}

#[test]
fn dispose_recovers_object_despite_poison() {
    let mut w = wrap(3);
    let _: Result<u64, InteractError<String>> = w.interact(InteractOutcome::Panicked(9));
    assert!(w.is_mutex_poisoned());
    // teardown takes the inner value anyway; poison never orphans the object
    assert_eq!(w.dispose(), 9);
}

#[test]
fn interact_result_type_may_differ_from_object() {
    let mut w = wrap(6);
    let r: Result<String, InteractError<String>> =
        w.interact(InteractOutcome::Completed(6, Ok("six".to_string())));
    match r {
        Ok(s) => assert_eq!(s, "six"),
        Err(_) => panic!("a completed closure's Ok must come back as Ok"),
    }
}
