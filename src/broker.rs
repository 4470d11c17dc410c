//! The request broker: a bounded FIFO queue of background work for one
//! worker task.
//!
//! A caller submits a request with a reply handle (its own completion
//! signal, which the broker never owns). A request of a kind already queued
//! joins that entry instead of adding one, so the worker does the work once
//! and answers every caller that asked. When the queue is full the request
//! is handed back and the caller waits before trying again.

use vstd::prelude::*;

verus! {

/// The kinds of background work.
#[derive(Clone, Copy, Debug, PartialEq, Eq, Structural)]
pub enum RequestKind {
    /// Fetch the time from the network and correct the clock.
    SyncTime,
    /// Send the pending report to the server.
    Upload,
}

/// The outcome of a submission.
pub enum Submitted<R> {
    /// A new entry was queued at the back.
    Queued,
    /// A request of the same kind was already queued; the reply handle was
    /// added to it.
    Joined,
    /// The queue is full; the reply handle is handed back.
    Full(R),
}

/// A queue of distinct request kinds, each with the reply handles of the
/// callers that asked for it, holding at most `CAPACITY` entries.
pub struct Broker<R, const CAPACITY: usize> {
    queue: Vec<(RequestKind, Vec<R>)>,
}

/// The queue as kinds with the reply handles waiting on them.
pub open spec fn entries_view<R>(q: Seq<(RequestKind, Vec<R>)>) -> Seq<(RequestKind, Seq<R>)> {
    q.map_values(|e: (RequestKind, Vec<R>)| (e.0, e.1@))
}

/// No kind is queued twice.
pub open spec fn distinct_kinds<R>(q: Seq<(RequestKind, Seq<R>)>) -> bool {
    forall|i: int, j: int|
        0 <= i < q.len() && 0 <= j < q.len() && i != j ==> (#[trigger] q[i]).0 != (#[trigger] q[j]).0
}

/// The position of `kind` in the queue, if it is queued.
pub open spec fn position_of<R>(q: Seq<(RequestKind, Seq<R>)>, kind: RequestKind) -> Option<int> {
    if exists|i: int| 0 <= i < q.len() && (#[trigger] q[i]).0 == kind {
        Some(choose|i: int| 0 <= i < q.len() && (#[trigger] q[i]).0 == kind)
    } else {
        None
    }
}

impl<R, const CAPACITY: usize> View for Broker<R, CAPACITY> {
    type V = Seq<(RequestKind, Seq<R>)>;

    closed spec fn view(&self) -> Seq<(RequestKind, Seq<R>)> {
        entries_view(self.queue@)
    }
}

impl<R, const CAPACITY: usize> Broker<R, CAPACITY> {
    /// The queue holds at most `CAPACITY` entries, of distinct kinds.
    pub open spec fn wf(&self) -> bool {
        &&& self@.len() <= CAPACITY
        &&& distinct_kinds(self@)
    }

    /// An empty broker.
    pub fn new() -> (r: Self)
        ensures
            r.wf(),
            r@ == Seq::<(RequestKind, Seq<R>)>::empty(),
    {
        let r = Broker { queue: Vec::new() };
        assert(r@ =~= Seq::<(RequestKind, Seq<R>)>::empty());
        r
    }

    /// The number of queued entries.
    pub fn len(&self) -> (r: usize)
        ensures
            r == self@.len(),
    {
        self.queue.len()
    }

    /// Submits a request of `kind`, to be answered through `reply`.
    pub fn submit(&mut self, kind: RequestKind, reply: R) -> (r: Submitted<R>)
        requires
            old(self).wf(),
        ensures
            final(self).wf(),
            match position_of(old(self)@, kind) {
                Some(i) => r is Joined && final(self)@ == old(self)@.update(
                    i,
                    (kind, old(self)@[i].1.push(reply)),
                ),
                None => if old(self)@.len() < CAPACITY {
                    r is Queued && final(self)@ == old(self)@.push((kind, seq![reply]))
                } else {
                    r == Submitted::Full(reply) && final(self)@ == old(self)@
                },
            },
    {
        let ghost q = self@;
        let mut i: usize = 0;
        while i < self.queue.len()
            invariant
                q == self@,
                q == old(self)@,
                q.len() <= CAPACITY,
                distinct_kinds(q),
                i <= self.queue@.len(),
                forall|j: int| 0 <= j < i ==> (#[trigger] q[j]).0 != kind,
            decreases self.queue@.len() - i,
        {
            assert(q[i as int].0 == self.queue@[i as int].0);
            if self.queue[i].0 == kind {
                proof {
                    assert(q[i as int].0 == kind);
                    let k = choose|k: int| 0 <= k < q.len() && (#[trigger] q[k]).0 == kind;
                    if k != i as int {
                        assert(q[k].0 != q[i as int].0);
                    }
                    assert(position_of(q, kind) == Some(i as int));
                }
                let ghost qv = self.queue@;
                let mut entry = self.queue.remove(i);
                entry.1.push(reply);
                self.queue.insert(i, entry);
                proof {
                    assert(self.queue@ =~= qv.update(i as int, entry));
                    let q2 = q.update(i as int, (kind, q[i as int].1.push(reply)));
                    assert forall|a: int| 0 <= a < q2.len() implies #[trigger] self@[a] == q2[a] by {
                        if a == i as int {
                            assert(self.queue@[a] == entry);
                        } else {
                            assert(self.queue@[a] == qv[a]);
                        }
                    }
                    assert(self@.len() == q2.len());
                    assert(self@ =~= q2);
                    assert forall|a: int, b: int|
                        0 <= a < q2.len() && 0 <= b < q2.len() && a != b implies (#[trigger] q2[a]).0
                        != (#[trigger] q2[b]).0 by {
                        assert(q2[a].0 == q[a].0);
                        assert(q2[b].0 == q[b].0);
                    }
                }
                return Submitted::Joined;
            }
            i = i + 1;
        }
        if self.queue.len() < CAPACITY {
            let mut replies: Vec<R> = Vec::new();
            replies.push(reply);
            self.queue.push((kind, replies));
            proof {
                let q2 = q.push((kind, seq![reply]));
                assert(self@ =~= q2);
                assert forall|a: int, b: int|
                    0 <= a < q2.len() && 0 <= b < q2.len() && a != b implies (#[trigger] q2[a]).0 != (
                    #[trigger] q2[b]).0 by {
                    if a < q.len() {
                        assert(q2[a] == q[a]);
                    }
                    if b < q.len() {
                        assert(q2[b] == q[b]);
                    }
                }
            }
            Submitted::Queued
        } else {
            Submitted::Full(reply)
        }
    }

    /// Takes the oldest entry: the kind of work and the reply handles of
    /// every caller waiting on it, in the order they asked.
    pub fn next(&mut self) -> (r: Option<(RequestKind, Vec<R>)>)
        requires
            old(self).wf(),
        ensures
            final(self).wf(),
            old(self)@.len() == 0 ==> r is None && final(self)@ == old(self)@,
            old(self)@.len() > 0 ==> r is Some && (r->Some_0.0, r->Some_0.1@) == old(self)@[0]
                && final(self)@ == old(self)@.drop_first(),
    {
        if self.queue.len() == 0 {
            None
        } else {
            let ghost q = self@;
            let e = self.queue.remove(0);
            proof {
                assert(self@ =~= q.drop_first());
                assert forall|a: int, b: int|
                    0 <= a < self@.len() && 0 <= b < self@.len() && a != b implies (
                    #[trigger] self@[a]).0 != (#[trigger] self@[b]).0 by {
                    assert(self@[a] == q[a + 1]);
                    assert(self@[b] == q[b + 1]);
                }
            }
            Some(e)
        }
    }
}

} // verus!
