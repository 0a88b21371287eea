//! The validation protocol that each worker runs: insert, read back, delete,
//! then a compound create read back, checking each answer of the store.
use vstd::prelude::*;
use crate::labels::{
    cyclic_label, cyclic_name, email_prefix, lemma_worker_labels_distinct, name_prefix,
    worker_email, worker_label, worker_name,
};
use crate::models::{
    committed, is_cyclic_row, is_insert, Executor, NewUser, RowView, StoreError, User,
};

verus! {

/// Which check of the protocol failed, with what was expected and what was
/// found.
#[derive(Clone, Debug, PartialEq, Eq)]
pub enum ViolationKind {
    /// The record just written was not found.
    Missing,
    /// The record found is not the one written: another identifier, name or
    /// contact label.
    WrongRecord {
        expected_id: u64,
        expected_name: String,
        expected_email: String,
        found_id: u64,
        found_name: String,
        found_email: String,
    },
    /// A delete of a record just written removed this many records, not one.
    DeleteCount(usize),
}

/// A failed check, with the worker, the iteration and the identifier involved.
#[derive(Clone, Debug, PartialEq, Eq)]
pub struct Violation {
    pub thread_id: u64,
    pub iteration: u64,
    pub id: u64,
    pub kind: ViolationKind,
}

/// Why a worker stopped.
#[derive(Clone, Debug)]
pub enum HarnessError {
    /// The store failed a statement in this iteration of this worker.
    Store { thread_id: u64, iteration: u64, error: StoreError },
    /// The store answered, but not as it must.
    InvariantViolation(Violation),
}

/// `e` names worker `thread_id` and iteration `iteration`.
pub open spec fn located(e: HarnessError, thread_id: u64, iteration: u64) -> bool {
    match e {
        HarnessError::Store { thread_id: t, iteration: i, .. } => t == thread_id && i == iteration,
        HarnessError::InvariantViolation(v) => v.thread_id == thread_id && v.iteration == iteration,
    }
}

/// The identifiers an iteration wrote: the simple record, deleted again, and
/// the compound record, which stays.
#[derive(Clone, Copy, Debug, PartialEq, Eq)]
pub struct Iteration {
    pub record_id: u64,
    pub cyclic_id: u64,
}

/// Whether `fetched` is exactly the record `id` with `name` and `email`.
pub open spec fn is_record(fetched: User, id: u64, name: Seq<char>, email: Seq<char>) -> bool {
    fetched.id == id && fetched.name@ == name && fetched.email@ == email
}

/// `r` reports a wrong record: `id`, `name`, `email` expected, `u` found.
pub open spec fn is_wrong_record(r: Option<ViolationKind>, id: u64, name: Seq<char>, email: Seq<char>, u: User) -> bool {
    match r {
        Some(ViolationKind::WrongRecord { expected_id, expected_name, expected_email, found_id, found_name, found_email }) =>
            expected_id == id && expected_name@ == name && expected_email@ == email
            && found_id == u.id && found_name@ == u.name@ && found_email@ == u.email@,
        _ => false,
    }
}

/// Checks a read-back: `None` where `fetched` is the record `id` holding
/// `name` and `email`; `Missing` where nothing came back; `WrongRecord`, with
/// both sides, else.
pub fn check_fetched(id: u64, name: &String, email: &String, fetched: &Option<User>) -> (r: Option<ViolationKind>)
    ensures
        match fetched {
            None => r == Some(ViolationKind::Missing),
            Some(u) => if is_record(*u, id, name@, email@) {
                r is None
            } else {
                is_wrong_record(r, id, name@, email@, *u)
            },
        },
{
    match fetched {
        None => Some(ViolationKind::Missing),
        Some(u) => {
            if u.id == id && u.name == *name && u.email == *email {
                None
            } else {
                Some(ViolationKind::WrongRecord {
                    expected_id: id,
                    expected_name: name.clone(),
                    expected_email: email.clone(),
                    found_id: u.id,
                    found_name: u.name.clone(),
                    found_email: u.email.clone(),
                })
            }
        },
    }
}

/// Checks the count a delete of a record just written reported: it must be 1.
pub fn check_deleted(rows_affected: usize) -> (r: Option<ViolationKind>)
    ensures
        rows_affected == 1 ==> r is None,
        rows_affected != 1 ==> r == Some(ViolationKind::DeleteCount(rows_affected)),
{
    if rows_affected == 1 {
        None
    } else {
        Some(ViolationKind::DeleteCount(rows_affected))
    }
}

/// Checks the read-back of compound record `id`: both its name and its
/// contact label must be `cyclic-{id}`.
pub fn check_cyclic(id: u64, fetched: &Option<User>) -> (r: Option<ViolationKind>)
    ensures
        match fetched {
            None => r == Some(ViolationKind::Missing),
            Some(u) => if is_record(*u, id, cyclic_label(id as nat), cyclic_label(id as nat)) {
                r is None
            } else {
                is_wrong_record(r, id, cyclic_label(id as nat), cyclic_label(id as nat), *u)
            },
        },
{
    let label = cyclic_name(id);
    check_fetched(id, &label, &label, fetched)
}

fn violation(thread_id: u64, iteration: u64, id: u64, kind: ViolationKind) -> (r: HarnessError)
    ensures
        r == HarnessError::InvariantViolation(Violation { thread_id, iteration, id, kind }),
{
    HarnessError::InvariantViolation(Violation { thread_id, iteration, id, kind })
}

fn store_failure(thread_id: u64, iteration: u64, error: StoreError) -> (r: HarnessError)
    ensures
        r == (HarnessError::Store { thread_id, iteration, error }),
{
    HarnessError::Store { thread_id, iteration, error }
}

/// One iteration of worker `thread_id` on a connection it holds: writes the
/// record `name-{thread_id}-{iteration}` / `email-{thread_id}-{iteration}`,
/// reads it back and checks it, deletes it and checks that one record went,
/// then runs a compound create and reads that back.
///
/// Against a store that keeps the `Executor` contract no check can fail: the
/// only errors are the store's own, and they name this worker and iteration.
/// On success both identifiers are new, the simple record is gone, and the
/// committed table has gained exactly the compound record.
pub fn validate_iteration<C: Executor>(thread_id: u64, iteration: u64, conn: &mut C) -> (r: Result<Iteration, HarnessError>)
    requires
        !old(conn).in_transaction(),
    ensures
        !final(conn).in_transaction(),
        old(conn).issued().subset_of(final(conn).issued()),
        r is Err ==> r->Err_0 is Store && located(r->Err_0, thread_id, iteration),
        r is Ok ==> ({
            let it = r->Ok_0;
            &&& !old(conn).issued().contains(it.record_id)
            &&& !old(conn).issued().contains(it.cyclic_id)
            &&& it.record_id != it.cyclic_id
            &&& final(conn).issued().contains(it.record_id)
            &&& final(conn).issued().contains(it.cyclic_id)
            &&& !committed(final(conn)).contains_key(it.record_id)
            &&& !committed(old(conn)).contains_key(it.cyclic_id)
            &&& committed(final(conn)) == committed(old(conn)).insert(it.cyclic_id, committed(final(conn))[it.cyclic_id])
            &&& is_cyclic_row(it.cyclic_id, committed(final(conn))[it.cyclic_id])
        }),
{
    let name = worker_name(thread_id, iteration);
    let email = worker_email(thread_id, iteration);
    let new = NewUser { name: name.as_str(), email: email.as_str() };
    let id = match User::insert(new, conn) {
        Ok(id) => id,
        Err(e) => return Err(store_failure(thread_id, iteration, e)),
    };
    let fetched = match User::from_id(id, conn) {
        Ok(f) => f,
        Err(e) => return Err(store_failure(thread_id, iteration, e)),
    };
    match check_fetched(id, &name, &email, &fetched) {
        Some(kind) => return Err(violation(thread_id, iteration, id, kind)),
        None => {},
    }
    let rows_affected = match User::delete(id, conn) {
        Ok(n) => n,
        Err(e) => return Err(store_failure(thread_id, iteration, e)),
    };
    match check_deleted(rows_affected) {
        Some(kind) => return Err(violation(thread_id, iteration, id, kind)),
        None => {},
    }
    assert(conn.rows() =~= old(conn).rows());
    let ghost mid = conn.issued();
    let cid = match User::cyclic_create(conn) {
        Ok(cid) => cid,
        Err(e) => return Err(store_failure(thread_id, iteration, e)),
    };
    assert(mid.contains(id));
    let fetched = match User::from_id(cid, conn) {
        Ok(f) => f,
        Err(e) => return Err(store_failure(thread_id, iteration, e)),
    };
    match check_cyclic(cid, &fetched) {
        Some(kind) => return Err(violation(thread_id, iteration, cid, kind)),
        None => {},
    }
    Ok(Iteration { record_id: id, cyclic_id: cid })
}

/// `after` is `before` with a compound record added under each of `ids`, and
/// every record of `before` as it was.
pub open spec fn gained_compound(before: Map<u64, RowView>, after: Map<u64, RowView>, ids: Seq<u64>) -> bool {
    &&& forall|id: u64| #[trigger] after.contains_key(id) <==> (before.contains_key(id) || ids.contains(id))
    &&& forall|id: u64| #[trigger] before.contains_key(id) ==> after[id] == before[id]
    &&& forall|k: int| 0 <= k < ids.len() ==> is_cyclic_row(ids[k], #[trigger] after[ids[k]])
    &&& forall|k: int| 0 <= k < ids.len() ==> !before.contains_key(#[trigger] ids[k])
    &&& forall|j: int, k: int| 0 <= j < k < ids.len() ==> ids[j] != ids[k]
}

/// Runs `count` iterations of worker `thread_id` on one connection, stopping
/// at the first error, and returns the identifiers of the compound records.
///
/// On success the committed table has gained exactly `count` compound records
/// under distinct new identifiers, each named after its own identifier, and
/// every other record is as before: no simple record is left behind. An error
/// names the worker and the iteration it stopped at.
pub fn insert_and_validate<C: Executor>(thread_id: u64, count: u64, conn: &mut C) -> (r: Result<Vec<u64>, HarnessError>)
    requires
        !old(conn).in_transaction(),
    ensures
        !final(conn).in_transaction(),
        r is Err ==> r->Err_0 is Store && r->Err_0->Store_thread_id == thread_id
            && r->Err_0->Store_iteration < count,
        r is Ok ==> r->Ok_0@.len() == count
            && gained_compound(committed(old(conn)), committed(final(conn)), r->Ok_0@),
{
    let mut ids: Vec<u64> = Vec::new();
    let mut i: u64 = 0;
    while i < count
        invariant
            i <= count,
            ids@.len() == i,
            !conn.in_transaction(),
            old(conn).issued().subset_of(conn.issued()),
            forall|k: int| 0 <= k < ids@.len() ==> conn.issued().contains(#[trigger] ids@[k]),
            gained_compound(committed(old(conn)), committed(conn), ids@),
        decreases count - i,
    {
        let ghost before = committed(conn);
        let ghost issued_before = conn.issued();
        let ghost ids_before = ids@;
        let it = match validate_iteration(thread_id, i, conn) {
            Ok(it) => it,
            Err(e) => return Err(e),
        };
        let cid = it.cyclic_id;
        ids.push(cid);
        proof {
            let base = committed(old(conn));
            let after = committed(conn);
            assert forall|k: int| 0 <= k < ids_before.len() implies ids_before[k] != cid by {
                assert(issued_before.contains(ids_before[k]));
            }
            assert(!base.contains_key(cid)) by {
                if base.contains_key(cid) {
                    assert(before.contains_key(cid));
                }
            }
            assert forall|id: u64| #[trigger] after.contains_key(id) <==> (base.contains_key(id) || ids@.contains(id)) by {
                assert(before.contains_key(id) <==> (base.contains_key(id) || ids_before.contains(id)));
                assert(ids@[ids@.len() - 1] == cid);
                if ids@.contains(id) && id != cid {
                    let k = choose|k: int| 0 <= k < ids@.len() && ids@[k] == id;
                    assert(ids_before[k] == id);
                }
                if ids_before.contains(id) {
                    let k = choose|k: int| 0 <= k < ids_before.len() && ids_before[k] == id;
                    assert(ids@[k] == id);
                }
            }
            assert forall|k: int| 0 <= k < ids@.len() implies is_cyclic_row(ids@[k], #[trigger] after[ids@[k]]) by {
                if k < ids_before.len() {
                    assert(ids@[k] == ids_before[k]);
                    assert(before.contains_key(ids_before[k]));
                }
            }
            assert forall|k: int| 0 <= k < ids@.len() implies conn.issued().contains(#[trigger] ids@[k]) by {
                if k < ids_before.len() {
                    assert(ids@[k] == ids_before[k]);
                }
            }
        }
        i = i + 1;
    }
    Ok(ids)
}

/// The labels that worker `thread_id` writes in iteration `iteration`.
pub open spec fn worker_name_and_email(thread_id: nat, iteration: nat) -> (Seq<char>, Seq<char>) {
    (
        worker_label(name_prefix(), thread_id, iteration),
        worker_label(email_prefix(), thread_id, iteration),
    )
}

/// What a worker reads back right after its insert is its own record: the
/// row stored under the fresh identifier holds the name and the contact label
/// it wrote, and differs in both from what any other worker, or the same
/// worker in another iteration, writes.
pub proof fn lemma_no_cross_contamination(
    before: Map<u64, RowView>,
    after: Map<u64, RowView>,
    id: u64,
    t1: nat,
    i1: nat,
    t2: nat,
    i2: nat,
)
    requires
        is_insert(before, after, id, worker_name_and_email(t1, i1).0, worker_name_and_email(t1, i1).1),
        t1 != t2 || i1 != i2,
    ensures
        after.contains_key(id),
        after[id].0 == worker_name_and_email(t1, i1).0,
        after[id].1 == worker_name_and_email(t1, i1).1,
        after[id].0 != worker_name_and_email(t2, i2).0,
        after[id].1 != worker_name_and_email(t2, i2).1,
{
    lemma_worker_labels_distinct(name_prefix(), t1, i1, t2, i2);
    lemma_worker_labels_distinct(email_prefix(), t1, i1, t2, i2);
}

} // verus!
