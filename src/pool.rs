//! The bookkeeping of a bounded connection pool: how many connections are
//! idle and how many are leased, and the queue of callers waiting for one.
//! The pool that holds the connections asks this ledger what to do on each
//! acquire, release and timeout, under one lock.
use vstd::prelude::*;

verus! {

/// The ledger's answer to an acquire.
#[derive(Clone, Copy, Debug, PartialEq, Eq)]
pub enum Grant {
    /// Take one of the idle connections.
    Idle,
    /// Open a new connection: the pool is below its capacity.
    Open,
    /// Wait: every connection is leased. The caller is queued and is handed a
    /// connection by a later release, in arrival order.
    Wait,
}

/// Why an acquire failed.
#[derive(Clone, Debug, PartialEq, Eq)]
pub enum PoolError {
    /// The backend could not be reached to open a connection.
    ConnectFailed(String),
    /// The caller's wait timed out: every connection stayed leased.
    PoolExhausted,
}

/// A capacity, the counts of idle and leased connections, and the queue of
/// waiting callers, by ticket.
pub struct PoolLedger {
    capacity: usize,
    idle: usize,
    outstanding: usize,
    waiters: Vec<u64>,
}

impl PoolLedger {
    pub closed spec fn capacity_view(&self) -> nat {
        self.capacity as nat
    }

    pub closed spec fn idle_view(&self) -> nat {
        self.idle as nat
    }

    /// Connections handed out and not yet released.
    pub closed spec fn outstanding_view(&self) -> nat {
        self.outstanding as nat
    }

    /// Waiting callers, first come first.
    pub closed spec fn waiters_view(&self) -> Seq<u64> {
        self.waiters@
    }

    /// Never more connections than the capacity, and nobody waits while a
    /// connection is idle or another may be opened.
    pub closed spec fn wf(&self) -> bool {
        &&& 0 < self.capacity
        &&& self.idle + self.outstanding <= self.capacity
        &&& self.waiters@.len() > 0 ==> self.idle == 0 && self.idle + self.outstanding
            == self.capacity
    }

    /// A ledger for `capacity` connections, `min_idle` of them opened ahead.
    pub fn new(capacity: usize, min_idle: usize) -> (r: PoolLedger)
        requires
            0 < capacity,
            min_idle <= capacity,
        ensures
            r.wf(),
            r.capacity_view() == capacity,
            r.idle_view() == min_idle,
            r.outstanding_view() == 0,
            r.waiters_view() == Seq::<u64>::empty(),
    {
        PoolLedger { capacity, idle: min_idle, outstanding: 0, waiters: Vec::new() }
    }

    pub fn capacity(&self) -> (r: usize)
        ensures
            r == self.capacity_view(),
    {
        self.capacity
    }

    pub fn idle(&self) -> (r: usize)
        ensures
            r == self.idle_view(),
    {
        self.idle
    }

    pub fn outstanding(&self) -> (r: usize)
        ensures
            r == self.outstanding_view(),
    {
        self.outstanding
    }

    pub fn waiting(&self) -> (r: usize)
        ensures
            r == self.waiters_view().len(),
    {
        self.waiters.len()
    }

    /// An acquire by caller `ticket`: an idle connection where there is one,
    /// else a new one below capacity, else a place at the end of the queue.
    pub fn request(&mut self, ticket: u64) -> (r: Grant)
        requires
            old(self).wf(),
        ensures
            final(self).wf(),
            final(self).capacity_view() == old(self).capacity_view(),
            old(self).idle_view() > 0 ==> r == Grant::Idle && final(self).idle_view() == old(self).idle_view() - 1 && final(self).outstanding_view() == old(self).outstanding_view()
                + 1 && final(self).waiters_view() == old(self).waiters_view(),
            old(self).idle_view() == 0 && old(self).outstanding_view() < old(self).capacity_view()
                ==> r == Grant::Open && final(self).idle_view() == 0 && final(self).outstanding_view() == old(self).outstanding_view() + 1 && final(self).waiters_view()
                == old(self).waiters_view(),
            old(self).idle_view() == 0 && old(self).outstanding_view() == old(self).capacity_view()
                ==> r == Grant::Wait && final(self).idle_view() == 0 && final(self).outstanding_view() == old(self).outstanding_view() && final(self).waiters_view()
                == old(self).waiters_view().push(ticket),
    {
        if self.idle > 0 {
            self.idle = self.idle - 1;
            self.outstanding = self.outstanding + 1;
            Grant::Idle
        } else if self.outstanding < self.capacity {
            self.outstanding = self.outstanding + 1;
            Grant::Open
        } else {
            self.waiters.push(ticket);
            Grant::Wait
        }
    }

    /// A leased connection comes back. Where callers wait, it goes straight
    /// to the first of them, whose ticket is returned; else it becomes idle.
    pub fn release(&mut self) -> (r: Option<u64>)
        requires
            old(self).wf(),
            old(self).outstanding_view() > 0,
        ensures
            final(self).wf(),
            final(self).capacity_view() == old(self).capacity_view(),
            old(self).waiters_view().len() > 0 ==> r == Some(old(self).waiters_view()[0])
                && final(self).waiters_view() == old(self).waiters_view().drop_first() && final(self).idle_view() == old(self).idle_view() && final(self).outstanding_view() == old(self).outstanding_view(),
            old(self).waiters_view().len() == 0 ==> r is None && final(self).waiters_view()
                == old(self).waiters_view() && final(self).idle_view() == old(self).idle_view()
                + 1 && final(self).outstanding_view() == old(self).outstanding_view() - 1,
    {
        if self.waiters.len() > 0 {
            let t = self.waiters.remove(0);
            assert(self.waiters@ =~= old(self).waiters@.drop_first());
            Some(t)
        } else {
            self.idle = self.idle + 1;
            self.outstanding = self.outstanding - 1;
            None
        }
    }

    /// A leased connection is lost (it broke, or opening it failed). Where
    /// callers wait, the first of them may open a replacement, and its ticket
    /// is returned; else the pool has one connection fewer.
    pub fn forfeit(&mut self) -> (r: Option<u64>)
        requires
            old(self).wf(),
            old(self).outstanding_view() > 0,
        ensures
            final(self).wf(),
            final(self).capacity_view() == old(self).capacity_view(),
            final(self).idle_view() == old(self).idle_view(),
            old(self).waiters_view().len() > 0 ==> r == Some(old(self).waiters_view()[0])
                && final(self).waiters_view() == old(self).waiters_view().drop_first() && final(self).outstanding_view() == old(self).outstanding_view(),
            old(self).waiters_view().len() == 0 ==> r is None && final(self).waiters_view()
                == old(self).waiters_view() && final(self).outstanding_view() == old(self).outstanding_view() - 1,
    {
        if self.waiters.len() > 0 {
            let t = self.waiters.remove(0);
            assert(self.waiters@ =~= old(self).waiters@.drop_first());
            Some(t)
        } else {
            self.outstanding = self.outstanding - 1;
            None
        }
    }

    /// Caller `ticket` gives up waiting (its timeout expired). Returns whether
    /// it was still queued; its first place in the queue is removed.
    pub fn cancel(&mut self, ticket: u64) -> (r: bool)
        requires
            old(self).wf(),
        ensures
            final(self).wf(),
            final(self).capacity_view() == old(self).capacity_view(),
            final(self).idle_view() == old(self).idle_view(),
            final(self).outstanding_view() == old(self).outstanding_view(),
            r == old(self).waiters_view().contains(ticket),
            !r ==> final(self).waiters_view() == old(self).waiters_view(),
            r ==> exists|i: int|
                0 <= i < old(self).waiters_view().len() && old(self).waiters_view()[i] == ticket
                    && (forall|j: int| 0 <= j < i ==> old(self).waiters_view()[j] != ticket)
                    && final(self).waiters_view() == old(self).waiters_view().remove(i),
    {
        let mut i: usize = 0;
        while i < self.waiters.len()
            invariant
                i <= self.waiters@.len(),
                self.waiters@ == old(self).waiters@,
                self.capacity == old(self).capacity,
                self.idle == old(self).idle,
                self.outstanding == old(self).outstanding,
                old(self).wf(),
                forall|j: int| 0 <= j < i ==> self.waiters@[j] != ticket,
            decreases self.waiters@.len() - i,
        {
            if self.waiters[i] == ticket {
                let ghost before = self.waiters@;
                self.waiters.remove(i);
                assert(self.waiters@ == before.remove(i as int));
                assert(before.contains(ticket)) by {
                    assert(before[i as int] == ticket);
                }
                return true;
            }
            i = i + 1;
        }
        assert(!old(self).waiters@.contains(ticket)) by {
            if old(self).waiters@.contains(ticket) {
                let k = choose|k: int| 0 <= k < old(self).waiters@.len() && old(self).waiters@[k] == ticket;
                assert(self.waiters@[k] != ticket);
            }
        }
        false
    }
}

/// At every moment the leased connections number at most the capacity.
pub proof fn lemma_capacity_invariant(p: PoolLedger)
    requires
        p.wf(),
    ensures
        p.outstanding_view() <= p.capacity_view(),
        p.idle_view() + p.outstanding_view() <= p.capacity_view(),
{
}

/// A caller waits only while every connection is leased: the queue is empty
/// whenever a connection is idle or the pool is below its capacity.
pub proof fn lemma_wait_only_when_full(p: PoolLedger)
    requires
        p.wf(),
        p.waiters_view().len() > 0,
    ensures
        p.idle_view() == 0,
        p.outstanding_view() == p.capacity_view(),
{
}

} // verus!
