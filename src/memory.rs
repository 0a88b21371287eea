//! A record store held in memory, one connection's worth: identifiers are
//! handed out in increasing order from 1 and never again, and a transaction works on the live table
//! while a copy of the table as it was at `begin` waits for a rollback.
use vstd::prelude::*;
use crate::models::{Executor, RowView, StoreError, Timestamp, User, is_update, opt_view};

verus! {

/// What the model holds of a stored record.
pub open spec fn row_of(u: User) -> RowView {
    (u.name@, u.email@, u.created_at, u.updated_at)
}

/// The table that `slots` hold: slot `k` holds record `k + 1`, or nothing.
pub open spec fn table_of(slots: Seq<Option<User>>) -> Map<u64, RowView> {
    Map::new(
        |id: u64| 1 <= id && id <= slots.len() && slots[id - 1] is Some,
        |id: u64| row_of(slots[id - 1]->Some_0),
    )
}

/// An in-memory record store.
pub struct MemoryStore {
    slots: Vec<Option<User>>,
    saved: Vec<Option<User>>,
    in_tx: bool,
    clock: i64,
    last_id: u64,
}

fn copy_user(u: &User) -> (r: User)
    ensures
        r.id == u.id,
        row_of(r) == row_of(*u),
{
    User {
        id: u.id,
        name: u.name.clone(),
        email: u.email.clone(),
        created_at: u.created_at,
        updated_at: u.updated_at,
    }
}

fn copy_slots(slots: &Vec<Option<User>>) -> (r: Vec<Option<User>>)
    ensures
        table_of(r@) == table_of(slots@),
{
    let mut r: Vec<Option<User>> = Vec::new();
    let mut i: usize = 0;
    while i < slots.len()
        invariant
            i <= slots@.len(),
            r@.len() == i,
            forall|k: int| 0 <= k < i ==> (r@[k] is Some <==> slots@[k] is Some),
            forall|k: int|
                0 <= k < i && slots@[k] is Some ==> row_of(r@[k]->Some_0) == row_of(
                    slots@[k]->Some_0,
                ),
        decreases slots@.len() - i,
    {
        match &slots[i] {
            Some(u) => r.push(Some(copy_user(u))),
            None => r.push(None),
        }
        i = i + 1;
    }
    assert(table_of(r@) =~= table_of(slots@));
    r
}

impl MemoryStore {
    /// An empty store.
    pub fn new() -> (r: MemoryStore)
        ensures
            r.rows() == Map::<u64, RowView>::empty(),
            !r.in_transaction(),
    {
        let r = MemoryStore { slots: Vec::new(), saved: Vec::new(), in_tx: false, clock: 0, last_id: 0 };
        assert(table_of(r.slots@) =~= Map::<u64, RowView>::empty());
        r
    }

    fn tick(&mut self) -> (r: Timestamp)
        ensures
            final(self).slots == old(self).slots,
            final(self).saved == old(self).saved,
            final(self).in_tx == old(self).in_tx,
            final(self).last_id == old(self).last_id,
    {
        if self.clock < i64::MAX {
            self.clock = self.clock + 1;
        }
        Timestamp { secs: self.clock, nanos: 0 }
    }
}

impl Executor for MemoryStore {
    closed spec fn rows(&self) -> Map<u64, RowView> {
        table_of(self.slots@)
    }

    closed spec fn snapshot(&self) -> Map<u64, RowView> {
        table_of(self.saved@)
    }

    closed spec fn in_transaction(&self) -> bool {
        self.in_tx
    }

    closed spec fn issued(&self) -> Set<u64> {
        Set::new(|id: u64| 1 <= id && id <= self.last_id)
    }

    fn insert_row(&mut self, name: &str, email: &str) -> (r: Result<u64, StoreError>) {
        // above every identifier handed out and every slot in use
        let len = self.slots.len() as u64;
        let top = if self.last_id > len { self.last_id } else { len };
        if top >= u64::MAX {
            return Err(StoreError { message: String::from_str("identifiers exhausted") });
        }
        let id = top + 1;
        while (self.slots.len() as u64) < top
            invariant
                self.slots@.len() <= top,
                top < id,
                table_of(self.slots@) == table_of(old(self).slots@),
                self.saved == old(self).saved,
                self.in_tx == old(self).in_tx,
                self.last_id == old(self).last_id,
                self.last_id <= top,
                old(self).slots@.len() <= top,
            decreases top - self.slots@.len(),
        {
            let ghost before = self.slots@;
            self.slots.push(None);
            assert(table_of(self.slots@) =~= table_of(before));
        }
        let now = self.tick();
        let u = User {
            id,
            name: String::from_str(name),
            email: String::from_str(email),
            created_at: now,
            updated_at: now,
        };
        let ghost before = self.slots@;
        self.slots.push(Some(u));
        self.last_id = id;
        assert(table_of(self.slots@) =~= table_of(before).insert(id, row_of(u)));
        assert(table_of(self.slots@) =~= table_of(old(self).slots@).insert(id, table_of(self.slots@)[id]));
        assert(old(self).issued().subset_of(self.issued()));
        Ok(id)
    }

    fn select_row(&mut self, id: u64) -> (r: Result<Option<User>, StoreError>) {
        if id == 0 || id > self.slots.len() as u64 {
            return Ok(None);
        }
        match &self.slots[(id - 1) as usize] {
            Some(u) => {
                // the slot, not the stored copy, is what identifies a record
                let mut found = copy_user(u);
                found.id = id;
                Ok(Some(found))
            },
            None => Ok(None),
        }
    }

    fn delete_row(&mut self, id: u64) -> (r: Result<usize, StoreError>) {
        if id == 0 || id > self.slots.len() as u64 {
            assert(table_of(self.slots@) =~= table_of(self.slots@).remove(id));
            return Ok(0);
        }
        let k = (id - 1) as usize;
        if self.slots[k].is_none() {
            assert(table_of(self.slots@) =~= table_of(self.slots@).remove(id));
            return Ok(0);
        }
        self.slots.set(k, None);
        assert(table_of(self.slots@) =~= table_of(old(self).slots@).remove(id));
        Ok(1)
    }

    fn update_row(&mut self, id: u64, name: Option<&str>, email: Option<&str>) -> (r: Result<
        (),
        StoreError,
    >) {
        if id == 0 || id > self.slots.len() as u64 {
            assert(is_update(table_of(self.slots@), table_of(self.slots@), id, opt_view(name), opt_view(email)));
            return Ok(());
        }
        let k = (id - 1) as usize;
        let replacement = match &self.slots[k] {
            None => None,
            Some(u) => Some(
                User {
                    id: u.id,
                    name: match name {
                        Some(n) => String::from_str(n),
                        None => u.name.clone(),
                    },
                    email: match email {
                        Some(e) => String::from_str(e),
                        None => u.email.clone(),
                    },
                    created_at: u.created_at,
                    updated_at: u.updated_at,
                },
            ),
        };
        match replacement {
            None => {
                assert(is_update(table_of(self.slots@), table_of(self.slots@), id, opt_view(name), opt_view(email)));
            },
            Some(mut u) => {
                u.updated_at = self.tick();
                self.slots.set(k, Some(u));
                assert(table_of(self.slots@) =~= table_of(old(self).slots@).insert(id, table_of(self.slots@)[id]));
                assert(is_update(table_of(old(self).slots@), table_of(self.slots@), id, opt_view(name), opt_view(email)));
            },
        }
        Ok(())
    }

    fn begin_transaction(&mut self) -> (r: Result<(), StoreError>) {
        self.saved = copy_slots(&self.slots);
        self.in_tx = true;
        Ok(())
    }

    fn commit_transaction(&mut self) -> (r: Result<(), StoreError>) {
        self.saved = Vec::new();
        self.in_tx = false;
        Ok(())
    }

    fn rollback_transaction(&mut self) -> (r: Result<(), StoreError>) {
        std::mem::swap(&mut self.slots, &mut self.saved);
        self.saved = Vec::new();
        self.in_tx = false;
        Ok(())
    }
}

} // verus!
