//! The record type, the record-store interface a backend connection offers,
//! and the store operations built on it, the compound transactional create
//! among them.
use vstd::prelude::*;
use crate::labels::{cyclic_label, cyclic_name, placeholder};

verus! {

/// What the store holds of a record: its name, its contact label, and when it
/// was created and last updated.
pub type RowView = (Seq<char>, Seq<char>, Timestamp, Timestamp);

/// A point in time, as seconds and nanoseconds since the Unix epoch (UTC).
#[derive(Clone, Copy, Debug, PartialEq, Eq)]
pub struct Timestamp {
    pub secs: i64,
    pub nanos: u32,
}

/// The fields a caller supplies for a new record.
pub struct NewUser<'a> {
    pub name: &'a str,
    pub email: &'a str,
}

/// A stored record, as a fetch returns it.
#[derive(Clone, Debug)]
pub struct User {
    pub id: u64,
    pub name: String,
    pub email: String,
    pub created_at: Timestamp,
    pub updated_at: Timestamp,
}

/// A change to a stored record: only the fields that are `Some` are written.
pub struct UserChange<'a> {
    pub id: u64,
    pub name: Option<&'a str>,
    pub email: Option<&'a str>,
}

/// The backend rejected a statement, or the link to it failed.
#[derive(Clone, Debug)]
pub struct StoreError {
    pub message: String,
}

pub open spec fn opt_view(o: Option<&str>) -> Option<Seq<char>> {
    match o {
        Some(s) => Some(s@),
        None => None,
    }
}

/// `after` is `before` with record `id` added, holding `name` and `email`;
/// `id` was not in `before`. The backend picks the timestamps.
pub open spec fn is_insert(
    before: Map<u64, RowView>,
    after: Map<u64, RowView>,
    id: u64,
    name: Seq<char>,
    email: Seq<char>,
) -> bool {
    &&& !before.contains_key(id)
    &&& after == before.insert(id, after[id])
    &&& after[id].0 == name
    &&& after[id].1 == email
}

/// `after` is `before` with the supplied fields of record `id` written; its
/// creation time is kept and its update time is the backend's. Where `id`
/// is absent, nothing changes.
pub open spec fn is_update(
    before: Map<u64, RowView>,
    after: Map<u64, RowView>,
    id: u64,
    name: Option<Seq<char>>,
    email: Option<Seq<char>>,
) -> bool {
    if before.contains_key(id) {
        &&& after == before.insert(id, after[id])
        &&& after[id].0 == match name {
            Some(n) => n,
            None => before[id].0,
        }
        &&& after[id].1 == match email {
            Some(e) => e,
            None => before[id].1,
        }
        &&& after[id].2 == before[id].2
    } else {
        after == before
    }
}

/// `u` is record `id` of `rows`, every field of it.
pub open spec fn is_row(rows: Map<u64, RowView>, id: u64, u: User) -> bool {
    &&& rows.contains_key(id)
    &&& u.id == id
    &&& u.name@ == rows[id].0
    &&& u.email@ == rows[id].1
    &&& u.created_at == rows[id].2
    &&& u.updated_at == rows[id].3
}

/// A live connection to the record store, held by one worker at a time.
///
/// `rows` is the table as statements on this connection see it, uncommitted
/// writes of an open transaction included. `snapshot` is the table as it was
/// when the open transaction began. `issued` holds every identifier the
/// backend has handed out so far, also those of records since deleted or
/// rolled back: an identifier is handed out once.
///
/// The model describes a table that only this connection writes. An
/// implementation in this crate is checked against these contracts; one over
/// a real backend, outside it, is not, and its contract is assumed.
pub trait Executor {
    closed spec fn rows(&self) -> Map<u64, RowView> {
        arbitrary()
    }

    closed spec fn snapshot(&self) -> Map<u64, RowView> {
        arbitrary()
    }

    closed spec fn in_transaction(&self) -> bool {
        arbitrary()
    }

    closed spec fn issued(&self) -> Set<u64> {
        arbitrary()
    }

    /// Inserts a record; the backend picks an identifier it never handed out.
    fn insert_row(&mut self, name: &str, email: &str) -> (r: Result<u64, StoreError>)
        ensures
            final(self).in_transaction() == old(self).in_transaction(),
            final(self).snapshot() == old(self).snapshot(),
            old(self).issued().subset_of(final(self).issued()),
            match r {
                Ok(id) => !old(self).issued().contains(id) && final(self).issued().contains(id)
                    && is_insert(old(self).rows(), final(self).rows(), id, name@, email@),
                Err(_) => final(self).rows() == old(self).rows(),
            },
    ;

    /// Reads record `id`, or nothing where there is none.
    fn select_row(&mut self, id: u64) -> (r: Result<Option<User>, StoreError>)
        ensures
            final(self).in_transaction() == old(self).in_transaction(),
            final(self).snapshot() == old(self).snapshot(),
            final(self).issued() == old(self).issued(),
            final(self).rows() == old(self).rows(),
            match r {
                Ok(Some(u)) => is_row(old(self).rows(), id, u),
                Ok(None) => !old(self).rows().contains_key(id),
                Err(_) => true,
            },
    ;

    /// Deletes record `id` and reports how many records went: 0 or 1.
    fn delete_row(&mut self, id: u64) -> (r: Result<usize, StoreError>)
        ensures
            final(self).in_transaction() == old(self).in_transaction(),
            final(self).snapshot() == old(self).snapshot(),
            final(self).issued() == old(self).issued(),
            match r {
                Ok(n) => final(self).rows() == old(self).rows().remove(id) && n == (if old(self).rows().contains_key(id) {
                    1usize
                } else {
                    0usize
                }),
                Err(_) => final(self).rows() == old(self).rows(),
            },
    ;

    /// Writes the supplied fields of record `id`; a missing record is left
    /// missing and is no error.
    fn update_row(&mut self, id: u64, name: Option<&str>, email: Option<&str>) -> (r: Result<(), StoreError>)
        ensures
            final(self).in_transaction() == old(self).in_transaction(),
            final(self).snapshot() == old(self).snapshot(),
            final(self).issued() == old(self).issued(),
            match r {
                Ok(_) => is_update(old(self).rows(), final(self).rows(), id, opt_view(name), opt_view(email)),
                Err(_) => final(self).rows() == old(self).rows(),
            },
    ;

    /// Opens a transaction.
    fn begin_transaction(&mut self) -> (r: Result<(), StoreError>)
        requires
            !old(self).in_transaction(),
        ensures
            final(self).rows() == old(self).rows(),
            final(self).issued() == old(self).issued(),
            match r {
                Ok(_) => final(self).in_transaction() && final(self).snapshot() == old(self).rows(),
                Err(_) => !final(self).in_transaction(),
            },
    ;

    /// Commits the open transaction; where that fails, its writes are dropped.
    fn commit_transaction(&mut self) -> (r: Result<(), StoreError>)
        requires
            old(self).in_transaction(),
        ensures
            !final(self).in_transaction(),
            final(self).issued() == old(self).issued(),
            match r {
                Ok(_) => final(self).rows() == old(self).rows(),
                Err(_) => final(self).rows() == old(self).snapshot(),
            },
    ;

    /// Drops the writes of the open transaction. Identifiers handed out in it
    /// stay used.
    fn rollback_transaction(&mut self) -> (r: Result<(), StoreError>)
        requires
            old(self).in_transaction(),
        ensures
            !final(self).in_transaction(),
            final(self).issued() == old(self).issued(),
            final(self).rows() == old(self).snapshot(),
    ;
}

/// The table as every other connection sees it: without the uncommitted
/// writes of an open transaction.
pub open spec fn committed<C: Executor>(c: &C) -> Map<u64, RowView> {
    if c.in_transaction() {
        c.snapshot()
    } else {
        c.rows()
    }
}

/// `row` is what compound record `id` holds once renamed: name and contact
/// label both `cyclic-{id}`.
pub open spec fn is_cyclic_row(id: u64, row: RowView) -> bool {
    row.0 == cyclic_label(id as nat) && row.1 == cyclic_label(id as nat)
}

impl User {
    /// Inserts `new` and returns the identifier the backend gave it, one it
    /// never handed out before.
    pub fn insert<C: Executor>(new: NewUser<'_>, conn: &mut C) -> (r: Result<u64, StoreError>)
        ensures
            final(conn).in_transaction() == old(conn).in_transaction(),
            final(conn).snapshot() == old(conn).snapshot(),
            old(conn).issued().subset_of(final(conn).issued()),
            match r {
                Ok(id) => !old(conn).issued().contains(id) && final(conn).issued().contains(id)
                    && is_insert(old(conn).rows(), final(conn).rows(), id, new.name@, new.email@),
                Err(_) => final(conn).rows() == old(conn).rows(),
            },
    {
        conn.insert_row(new.name, new.email)
    }

    /// The record `id`, or `None` where there is none; a missing record is no
    /// error.
    pub fn from_id<C: Executor>(id: u64, conn: &mut C) -> (r: Result<Option<User>, StoreError>)
        ensures
            final(conn).in_transaction() == old(conn).in_transaction(),
            final(conn).snapshot() == old(conn).snapshot(),
            final(conn).issued() == old(conn).issued(),
            final(conn).rows() == old(conn).rows(),
            match r {
                Ok(Some(u)) => is_row(old(conn).rows(), id, u),
                Ok(None) => !old(conn).rows().contains_key(id),
                Err(_) => true,
            },
    {
        conn.select_row(id)
    }

    /// Deletes record `id`; returns 1 where it existed, 0 where not.
    pub fn delete<C: Executor>(id: u64, conn: &mut C) -> (r: Result<usize, StoreError>)
        ensures
            final(conn).in_transaction() == old(conn).in_transaction(),
            final(conn).snapshot() == old(conn).snapshot(),
            final(conn).issued() == old(conn).issued(),
            match r {
                Ok(n) => final(conn).rows() == old(conn).rows().remove(id) && n == (if old(conn).rows().contains_key(id) {
                    1usize
                } else {
                    0usize
                }),
                Err(_) => final(conn).rows() == old(conn).rows(),
            },
    {
        conn.delete_row(id)
    }

    /// Applies `update`; updating a missing record succeeds and changes nothing.
    /// The record's identifier and creation time are kept.
    pub fn update<C: Executor>(update: UserChange<'_>, conn: &mut C) -> (r: Result<(), StoreError>)
        ensures
            final(conn).in_transaction() == old(conn).in_transaction(),
            final(conn).snapshot() == old(conn).snapshot(),
            final(conn).issued() == old(conn).issued(),
            match r {
                Ok(_) => is_update(old(conn).rows(), final(conn).rows(), update.id, opt_view(update.name), opt_view(update.email)),
                Err(_) => final(conn).rows() == old(conn).rows(),
            },
    {
        conn.update_row(update.id, update.name, update.email)
    }

    /// Inside the open transaction: inserts a placeholder record, then renames
    /// it after its own identifier.
    fn insert_and_rename<C: Executor>(conn: &mut C) -> (r: Result<u64, StoreError>)
        requires
            old(conn).in_transaction(),
        ensures
            final(conn).in_transaction(),
            final(conn).snapshot() == old(conn).snapshot(),
            old(conn).issued().subset_of(final(conn).issued()),
            r is Ok ==> !old(conn).issued().contains(r->Ok_0) && final(conn).issued().contains(r->Ok_0)
                && !old(conn).rows().contains_key(r->Ok_0)
                && final(conn).rows() == old(conn).rows().insert(r->Ok_0, final(conn).rows()[r->Ok_0])
                && is_cyclic_row(r->Ok_0, final(conn).rows()[r->Ok_0]),
    {
        proof {
            reveal_strlit("tmp");
        }
        let new = NewUser { name: "tmp", email: "tmp" };
        let id = match Self::insert(new, conn) {
            Ok(id) => id,
            Err(e) => return Err(e),
        };
        let new_name = cyclic_name(id);
        let change = UserChange {
            id,
            name: Some(new_name.as_str()),
            email: Some(new_name.as_str()),
        };
        match Self::update(change, conn) {
            Ok(_) => {},
            Err(e) => return Err(e),
        }
        assert(final(conn).rows() =~= old(conn).rows().insert(id, final(conn).rows()[id]));
        Ok(id)
    }

    /// Ends the open transaction: commits where `outcome` is `Ok`, rolls back
    /// where it is `Err` and hands that error on unchanged.
    pub fn finish_transaction<C: Executor>(conn: &mut C, outcome: Result<u64, StoreError>) -> (r:
        Result<u64, StoreError>)
        requires
            old(conn).in_transaction(),
        ensures
            !final(conn).in_transaction(),
            final(conn).issued() == old(conn).issued(),
            outcome is Err ==> r == outcome && final(conn).rows() == old(conn).snapshot(),
            outcome is Ok ==> match r {
                Ok(id) => id == outcome->Ok_0 && final(conn).rows() == old(conn).rows(),
                Err(_) => final(conn).rows() == old(conn).snapshot(),
            },
    {
        match outcome {
            Ok(id) => match conn.commit_transaction() {
                Ok(_) => Ok(id),
                Err(e) => Err(e),
            },
            Err(e) => {
                let _ = conn.rollback_transaction();
                Err(e)
            },
        }
    }

    /// Creates a record whose name and contact label are both `cyclic-{id}`,
    /// `id` being its own identifier, in one transaction: first with
    /// placeholder values, then renamed. Other connections see either the
    /// table as it was or the renamed record, never the placeholder.
    pub fn cyclic_create<C: Executor>(conn: &mut C) -> (r: Result<u64, StoreError>)
        requires
            !old(conn).in_transaction(),
        ensures
            !final(conn).in_transaction(),
            old(conn).issued().subset_of(final(conn).issued()),
            match r {
                Ok(id) => !old(conn).issued().contains(id) && final(conn).issued().contains(id)
                    && !committed(old(conn)).contains_key(id)
                    && committed(final(conn)) == committed(old(conn)).insert(id, committed(final(conn))[id])
                    && is_cyclic_row(id, committed(final(conn))[id]),
                Err(_) => committed(final(conn)) == committed(old(conn)),
            },
    {
        match conn.begin_transaction() {
            Ok(_) => {},
            Err(e) => return Err(e),
        }
        let outcome = Self::insert_and_rename(conn);
        Self::finish_transaction(conn, outcome)
    }
}

/// The two committed tables between which a compound create moves (see the
/// contract of `User::cyclic_create`): after it the new record holds its
/// final labels, never the placeholder, and every other record is as it was.
pub proof fn lemma_cyclic_create_atomic(before: Map<u64, RowView>, after: Map<u64, RowView>, id: u64)
    requires
        !before.contains_key(id),
        after == before.insert(id, after[id]),
        is_cyclic_row(id, after[id]),
    ensures
        after[id].0 != placeholder(),
        after[id].1 != placeholder(),
        forall|k: u64| k != id ==> (before.contains_key(k) == after.contains_key(k)) && (
        before.contains_key(k) ==> before[k] == after[k]),
{
    crate::labels::lemma_cyclic_label_not_placeholder(id as nat);
}

/// A record just inserted is found, its delete removes exactly one record,
/// and afterwards the table is as before the insert and a fetch finds nothing.
pub proof fn lemma_delete_completeness(rows: Map<u64, RowView>, id: u64, row: RowView)
    requires
        !rows.contains_key(id),
    ensures
        rows.insert(id, row).contains_key(id),
        rows.insert(id, row)[id] == row,
        rows.insert(id, row).remove(id) == rows,
        !rows.insert(id, row).remove(id).contains_key(id),
{
    assert(rows.insert(id, row).remove(id) =~= rows);
}

/// Identifiers are handed out once: two successful inserts, the second made
/// after the first, return different identifiers, whatever was deleted or
/// rolled back in between.
pub proof fn lemma_identifiers_unique(issued_after_first: Set<u64>, issued_before_second: Set<u64>, a: u64, b: u64)
    requires
        issued_after_first.contains(a),
        issued_after_first.subset_of(issued_before_second),
        !issued_before_second.contains(b),
    ensures
        a != b,
{
}

} // verus!
