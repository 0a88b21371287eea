use pool_harness::labels::{cyclic_name, push_decimal, worker_email, worker_name};
use pool_harness::memory::MemoryStore;
use pool_harness::models::{Executor, NewUser, StoreError, User, UserChange};
use pool_harness::pool::{Grant, PoolLedger};
use pool_harness::worker::{
    check_cyclic, check_deleted, check_fetched, insert_and_validate, validate_iteration,
    HarnessError, ViolationKind,
};

fn record(id: u64, name: &str, email: &str) -> User {
    let mut store = MemoryStore::new();
    let got = User::insert(NewUser { name, email }, &mut store).unwrap();
    let mut u = User::from_id(got, &mut store).unwrap().unwrap();
    u.id = id;
    u
}

fn wrong(eid: u64, en: &str, ee: &str, fid: u64, fname: &str, fe: &str) -> ViolationKind {
    ViolationKind::WrongRecord {
        expected_id: eid,
        expected_name: en.to_string(),
        expected_email: ee.to_string(),
        found_id: fid,
        found_name: fname.to_string(),
        found_email: fe.to_string(),
    }
}

#[test]
fn decimal_forms() {
    let mut s = String::new();
    push_decimal(&mut s, 0);
    assert_eq!(s, "0");
    let mut s = String::from("x");
    push_decimal(&mut s, 1907);
    assert_eq!(s, "x1907");
    let mut s = String::new();
    push_decimal(&mut s, u64::MAX);
    assert_eq!(s, "18446744073709551615");
}

#[test]
fn worker_labels() {
    assert_eq!(worker_name(7, 42), "name-7-42");
    assert_eq!(worker_email(7, 42), "email-7-42");
    assert_eq!(worker_name(0, 0), "name-0-0");
    assert_eq!(cyclic_name(31), "cyclic-31");
}

#[test]
fn worker_labels_do_not_collide() {
    // 1-23 and 12-3 would collide without the separator
    assert_ne!(worker_name(1, 23), worker_name(12, 3));
    assert_ne!(worker_email(1, 23), worker_email(12, 3));
    assert_ne!(worker_name(3, 7), worker_name(7, 3));
}

#[test]
fn simple_flow_scenario() {
    let mut store = MemoryStore::new();
    let name = worker_name(7, 42);
    let email = worker_email(7, 42);
    let id = User::insert(NewUser { name: &name, email: &email }, &mut store).unwrap();
    let user = User::from_id(id, &mut store).unwrap().unwrap();
    assert_eq!(user.id, id);
    assert_eq!(user.name, "name-7-42");
    assert_eq!(user.email, "email-7-42");
    assert_eq!(User::delete(id, &mut store).unwrap(), 1);
    assert!(User::from_id(id, &mut store).unwrap().is_none());
    assert_eq!(User::delete(id, &mut store).unwrap(), 0);
}

#[test]
fn identifiers_are_fresh() {
    let mut store = MemoryStore::new();
    let a = User::insert(NewUser { name: "a", email: "a" }, &mut store).unwrap();
    let b = User::insert(NewUser { name: "b", email: "b" }, &mut store).unwrap();
    assert_ne!(a, b);
    assert_eq!(User::from_id(a, &mut store).unwrap().unwrap().name, "a");
    assert_eq!(User::from_id(b, &mut store).unwrap().unwrap().name, "b");
    assert!(User::from_id(0, &mut store).unwrap().is_none());
    assert!(User::from_id(99, &mut store).unwrap().is_none());
}

#[test]
fn update_writes_only_supplied_fields() {
    let mut store = MemoryStore::new();
    let id = User::insert(NewUser { name: "n", email: "e" }, &mut store).unwrap();
    User::update(UserChange { id, name: Some("n2"), email: None }, &mut store).unwrap();
    let u = User::from_id(id, &mut store).unwrap().unwrap();
    assert_eq!(u.name, "n2");
    assert_eq!(u.email, "e");
    User::update(UserChange { id, name: None, email: Some("e2") }, &mut store).unwrap();
    let u = User::from_id(id, &mut store).unwrap().unwrap();
    assert_eq!(u.name, "n2");
    assert_eq!(u.email, "e2");
}

#[test]
fn update_of_missing_record_is_no_error() {
    let mut store = MemoryStore::new();
    assert!(User::update(UserChange { id: 5, name: Some("x"), email: None }, &mut store).is_ok());
    assert!(User::from_id(5, &mut store).unwrap().is_none());
}

#[test]
fn cyclic_create_scenario() {
    let mut store = MemoryStore::new();
    User::insert(NewUser { name: "other", email: "other" }, &mut store).unwrap();
    let y = User::cyclic_create(&mut store).unwrap();
    let user = User::from_id(y, &mut store).unwrap().unwrap();
    assert_eq!(user.id, y);
    assert_eq!(user.name, format!("cyclic-{}", y));
    assert_eq!(user.email, format!("cyclic-{}", y));
    assert_ne!(user.name, "tmp");
    assert_ne!(user.email, "tmp");
}

#[test]
fn rollback_drops_uncommitted_writes() {
    let mut store = MemoryStore::new();
    let kept = User::insert(NewUser { name: "kept", email: "kept" }, &mut store).unwrap();
    store.begin_transaction().unwrap();
    let id = store.insert_row("tmp", "tmp").unwrap();
    // a read inside the transaction sees its own write
    assert_eq!(store.select_row(id).unwrap().unwrap().name, "tmp");
    let failure = StoreError { message: String::from("boom") };
    let r = User::finish_transaction(&mut store, Err(failure));
    assert_eq!(r.unwrap_err().message, "boom");
    assert!(User::from_id(id, &mut store).unwrap().is_none());
    assert_eq!(User::from_id(kept, &mut store).unwrap().unwrap().name, "kept");
}

#[test]
fn commit_keeps_writes() {
    let mut store = MemoryStore::new();
    store.begin_transaction().unwrap();
    let id = store.insert_row("x", "y").unwrap();
    assert_eq!(User::finish_transaction(&mut store, Ok(id)).unwrap(), id);
    assert_eq!(User::from_id(id, &mut store).unwrap().unwrap().email, "y");
}

#[test]
fn check_fetched_outcomes() {
    let name = String::from("name-1-2");
    let email = String::from("email-1-2");
    let good = record(4, "name-1-2", "email-1-2");
    assert_eq!(check_fetched(4, &name, &email, &Some(good)), None);
    assert_eq!(check_fetched(4, &name, &email, &None), Some(ViolationKind::Missing));
    let other_id = record(5, "name-1-2", "email-1-2");
    assert_eq!(
        check_fetched(4, &name, &email, &Some(other_id)),
        Some(wrong(4, "name-1-2", "email-1-2", 5, "name-1-2", "email-1-2"))
    );
    let other_name = record(4, "name-2-2", "email-1-2");
    assert_eq!(
        check_fetched(4, &name, &email, &Some(other_name)),
        Some(wrong(4, "name-1-2", "email-1-2", 4, "name-2-2", "email-1-2"))
    );
    let other_email = record(4, "name-1-2", "email-2-2");
    assert_eq!(
        check_fetched(4, &name, &email, &Some(other_email)),
        Some(wrong(4, "name-1-2", "email-1-2", 4, "name-1-2", "email-2-2"))
    );
}

#[test]
fn check_deleted_outcomes() {
    assert_eq!(check_deleted(1), None);
    assert_eq!(check_deleted(0), Some(ViolationKind::DeleteCount(0)));
    assert_eq!(check_deleted(2), Some(ViolationKind::DeleteCount(2)));
}

#[test]
fn check_cyclic_outcomes() {
    assert_eq!(check_cyclic(9, &Some(record(9, "cyclic-9", "cyclic-9"))), None);
    assert_eq!(
        check_cyclic(9, &Some(record(9, "tmp", "tmp"))),
        Some(wrong(9, "cyclic-9", "cyclic-9", 9, "tmp", "tmp"))
    );
    assert_eq!(
        check_cyclic(9, &Some(record(9, "cyclic-9", "tmp"))),
        Some(wrong(9, "cyclic-9", "cyclic-9", 9, "cyclic-9", "tmp"))
    );
    assert_eq!(check_cyclic(9, &None), Some(ViolationKind::Missing));
}

#[test]
fn one_iteration_leaves_only_the_compound_record() {
    let mut store = MemoryStore::new();
    let it = validate_iteration(3, 0, &mut store).unwrap();
    let u = User::from_id(it.cyclic_id, &mut store).unwrap().unwrap();
    assert_eq!(u.name, format!("cyclic-{}", it.cyclic_id));
    // the simple record got identifier 1 and is gone
    assert_eq!(it.record_id, 1);
    assert_eq!(it.cyclic_id, 2);
    assert!(User::from_id(1, &mut store).unwrap().is_none());
}

#[test]
fn many_workers_many_iterations() {
    let mut store = MemoryStore::new();
    let mut all = Vec::new();
    for th in 0..10u64 {
        match insert_and_validate(th, 50, &mut store) {
            Ok(ids) => {
                assert_eq!(ids.len(), 50);
                all.extend(ids);
            }
            Err(HarnessError::Store { thread_id, iteration, error }) => {
                panic!("store error in {}/{}: {}", thread_id, iteration, error.message)
            }
            Err(HarnessError::InvariantViolation(v)) => panic!("violation: {:?}", v),
        }
    }
    let mut sorted = all.clone();
    sorted.sort();
    sorted.dedup();
    assert_eq!(sorted.len(), 500);
    for id in all {
        let u = User::from_id(id, &mut store).unwrap().unwrap();
        assert_eq!(u.name, format!("cyclic-{}", id));
    }
}

#[test]
fn pool_never_exceeds_capacity() {
    let mut pool = PoolLedger::new(30, 0);
    let mut grants = Vec::new();
    for t in 0..100u64 {
        grants.push(pool.request(t));
        assert!(pool.outstanding() <= 30);
    }
    assert_eq!(grants.iter().filter(|g| **g == Grant::Open).count(), 30);
    assert_eq!(grants.iter().filter(|g| **g == Grant::Wait).count(), 70);
    assert_eq!(pool.waiting(), 70);
    assert_eq!(pool.outstanding(), 30);
}

#[test]
fn pool_hands_over_in_arrival_order() {
    let mut pool = PoolLedger::new(2, 0);
    assert_eq!(pool.request(1), Grant::Open);
    assert_eq!(pool.request(2), Grant::Open);
    assert_eq!(pool.request(3), Grant::Wait);
    assert_eq!(pool.request(4), Grant::Wait);
    assert_eq!(pool.release(), Some(3));
    assert_eq!(pool.release(), Some(4));
    assert_eq!(pool.outstanding(), 2);
    assert_eq!(pool.release(), None);
    assert_eq!(pool.idle(), 1);
    assert_eq!(pool.outstanding(), 1);
    assert_eq!(pool.request(5), Grant::Idle);
    assert_eq!(pool.idle(), 0);
}

#[test]
fn pool_prewarmed_connections_are_used_first() {
    let mut pool = PoolLedger::new(3, 2);
    assert_eq!(pool.capacity(), 3);
    assert_eq!(pool.request(1), Grant::Idle);
    assert_eq!(pool.request(2), Grant::Idle);
    assert_eq!(pool.request(3), Grant::Open);
    assert_eq!(pool.request(4), Grant::Wait);
}

#[test]
fn pool_timeout_leaves_the_queue() {
    let mut pool = PoolLedger::new(1, 0);
    assert_eq!(pool.request(1), Grant::Open);
    assert_eq!(pool.request(2), Grant::Wait);
    assert_eq!(pool.request(3), Grant::Wait);
    assert!(pool.cancel(2));
    assert!(!pool.cancel(2));
    assert_eq!(pool.waiting(), 1);
    assert_eq!(pool.release(), Some(3));
}

#[test]
fn pool_lost_connection_passes_to_waiter() {
    let mut pool = PoolLedger::new(1, 0);
    assert_eq!(pool.request(1), Grant::Open);
    assert_eq!(pool.request(2), Grant::Wait);
    assert_eq!(pool.forfeit(), Some(2));
    assert_eq!(pool.outstanding(), 1);
    assert_eq!(pool.forfeit(), None);
    assert_eq!(pool.outstanding(), 0);
    assert_eq!(pool.request(3), Grant::Open);
}

#[test]
fn contended_run_completes_within_capacity() {
    // 100 workers share a 30-connection pool; each takes a connection,
    // runs one iteration and releases it, until all have run 10 iterations
    let workers: usize = 100;
    let iterations: u64 = 10;
    let mut store = MemoryStore::new();
    let mut pool = PoolLedger::new(30, 0);
    let mut done = vec![0u64; workers];
    let mut holding = vec![false; workers];
    let mut waiting = vec![false; workers];
    let mut rounds = 0;
    while done.iter().any(|d| *d < iterations) {
        rounds += 1;
        assert!(rounds < 10_000, "a worker starved");
        for w in 0..workers {
            if done[w] == iterations {
                continue;
            }
            if !holding[w] && !waiting[w] {
                match pool.request(w as u64) {
                    Grant::Idle | Grant::Open => holding[w] = true,
                    Grant::Wait => waiting[w] = true,
                }
            }
            assert!(pool.outstanding() <= 30);
            assert_eq!(holding.iter().filter(|h| **h).count(), pool.outstanding());
            if holding[w] {
                validate_iteration(w as u64, done[w], &mut store).unwrap();
                done[w] += 1;
                holding[w] = false;
                if let Some(next) = pool.release() {
                    let next = next as usize;
                    assert!(waiting[next]);
                    waiting[next] = false;
                    holding[next] = true;
                }
            }
        }
    }
    assert_eq!(pool.outstanding(), 0);
    assert_eq!(pool.waiting(), 0);
}

#[test]
fn identifiers_are_not_reused() {
    let mut store = MemoryStore::new();
    let a = User::insert(NewUser { name: "a", email: "a" }, &mut store).unwrap();
    assert_eq!(User::delete(a, &mut store).unwrap(), 1);
    let b = User::insert(NewUser { name: "b", email: "b" }, &mut store).unwrap();
    assert_ne!(a, b);
    store.begin_transaction().unwrap();
    let c = store.insert_row("c", "c").unwrap();
    store.rollback_transaction().unwrap();
    let d = User::insert(NewUser { name: "d", email: "d" }, &mut store).unwrap();
    assert_ne!(c, d);
    assert_ne!(b, d);
    assert!(User::from_id(c, &mut store).unwrap().is_none());
}

#[test]
fn update_keeps_creation_time() {
    let mut store = MemoryStore::new();
    let id = User::insert(NewUser { name: "n", email: "e" }, &mut store).unwrap();
    let first = User::from_id(id, &mut store).unwrap().unwrap();
    let again = User::from_id(id, &mut store).unwrap().unwrap();
    assert_eq!(first.created_at, again.created_at);
    assert_eq!(first.updated_at, again.updated_at);
    User::update(UserChange { id, name: Some("m"), email: None }, &mut store).unwrap();
    let after = User::from_id(id, &mut store).unwrap().unwrap();
    assert_eq!(after.created_at, first.created_at);
    assert_eq!(after.id, id);
}
