//! Single-slot signal that keeps its value after it has been read.
//!
//! Unlike a one-shot signal, reading the value (by `peek` or by a waiter
//! completing) leaves it in place, so that several tasks can observe the
//! latest state and a task can check and then wait without a race.
//! Only `try_take` and `reset` clear it.
//!
//! The signal is a plain data structure: the task that shares it puts it
//! behind a lock, hands each waker to `poll`, and wakes the wakers that
//! `signal` returns.

use vstd::prelude::*;

verus! {

/// What a registered waiter is doing.
pub enum Slot<T, W> {
    /// Suspended; `W` is the handle that wakes it.
    Waiting(W),
    /// Woken by a signal that carried this value; the next poll returns it.
    Signaled(T),
}

/// The outcome of polling a waiter.
pub enum WaitPoll<T> {
    /// The wait is over, with this value.
    Ready(T),
    /// The waiter is registered and will be woken by the next signal.
    Pending,
}

/// A handle for one wait on a [`StickySignal`].
pub struct Waiter {
    id: u64,
    name: &'static str,
    next_only: bool,
}

impl Waiter {
    pub closed spec fn spec_id(&self) -> u64 {
        self.id
    }

    /// Whether the wait ignores a value already held and completes only on
    /// the next signal.
    pub closed spec fn spec_next_only(&self) -> bool {
        self.next_only
    }

    pub fn id(&self) -> (r: u64)
        ensures
            r == self.spec_id(),
    {
        self.id
    }

    /// The label given when the wait was started.
    pub fn name(&self) -> &'static str {
        self.name
    }
}

/// Whether some registered waiter has this id.
pub open spec fn has_id<T, W>(ws: Seq<(u64, Slot<T, W>)>, id: u64) -> bool {
    exists|i: int| 0 <= i < ws.len() && (#[trigger] ws[i]).0 == id
}

/// The position of the waiter with this id (meaningful when `has_id` holds).
pub open spec fn index_of<T, W>(ws: Seq<(u64, Slot<T, W>)>, id: u64) -> int {
    choose|i: int| 0 <= i < ws.len() && (#[trigger] ws[i]).0 == id
}

/// No two registered waiters share an id.
pub open spec fn unique_ids<T, W>(ws: Seq<(u64, Slot<T, W>)>) -> bool {
    forall|i: int, j: int|
        0 <= i < ws.len() && 0 <= j < ws.len() && i != j ==> (#[trigger] ws[i]).0 != (#[trigger] ws[j]).0
}

/// The wake handles of the waiters still suspended, in registration order.
pub open spec fn pending_wakers<T, W>(ws: Seq<(u64, Slot<T, W>)>) -> Seq<W>
    decreases ws.len(),
{
    if ws.len() == 0 {
        Seq::empty()
    } else {
        let rest = pending_wakers(ws.drop_last());
        match ws.last().1 {
            Slot::Waiting(w) => rest.push(w),
            Slot::Signaled(_) => rest,
        }
    }
}

/// Every waiter marked as woken with `v`.
pub open spec fn all_signaled<T, W>(ws: Seq<(u64, Slot<T, W>)>, v: T) -> Seq<(u64, Slot<T, W>)> {
    ws.map_values(|e: (u64, Slot<T, W>)| (e.0, Slot::<T, W>::Signaled(v)))
}

/// Single-slot signal that retains its value until it is reset or taken,
/// with room for `WAKERS` concurrent waiters.
pub struct StickySignal<T, W, const WAKERS: usize> {
    value: Option<T>,
    waiters: Vec<(u64, Slot<T, W>)>,
    next_id: u64,
    name: Option<&'static str>,
}

impl<T: Copy, W, const WAKERS: usize> StickySignal<T, W, WAKERS> {
    /// The value currently held.
    pub closed spec fn current(&self) -> Option<T> {
        self.value
    }

    /// The registered waiters, in registration order.
    pub closed spec fn waiters(&self) -> Seq<(u64, Slot<T, W>)> {
        self.waiters@
    }

    /// The id the next `wait` hands out.
    pub closed spec fn next_id(&self) -> u64 {
        self.next_id
    }

    pub closed spec fn spec_name(&self) -> Option<&'static str> {
        self.name
    }

    /// The waiter set fits its capacity, ids are unique, and every
    /// registered id was handed out before `next_id`.
    pub closed spec fn wf(&self) -> bool {
        &&& self.waiters@.len() <= WAKERS
        &&& unique_ids(self.waiters@)
        &&& ids_below(self.waiters@, self.next_id)
    }

    /// Creates an empty signal.
    pub fn new() -> (r: Self)
        ensures
            r.wf(),
            r.current() == None::<T>,
            r.waiters() == Seq::<(u64, Slot<T, W>)>::empty(),
            r.next_id() == 0,
            r.spec_name() == None::<&'static str>,
    {
        StickySignal { value: None, waiters: Vec::new(), next_id: 0, name: None }
    }

    /// Creates an empty signal with a label.
    pub fn new_with_name(name: &'static str) -> (r: Self)
        ensures
            r.wf(),
            r.current() == None::<T>,
            r.waiters() == Seq::<(u64, Slot<T, W>)>::empty(),
            r.next_id() == 0,
            r.spec_name() == Some(name),
    {
        StickySignal { value: None, waiters: Vec::new(), next_id: 0, name: Some(name) }
    }

    /// The label of the signal, or `"signal"` when it has none.
    pub fn prefix(&self) -> (r: &'static str)
        ensures
            r == (match self.spec_name() {
                Some(n) => n,
                None => "signal",
            }),
    {
        match self.name {
            Some(n) => n,
            None => "signal",
        }
    }

    /// Stores `val`, replacing any previous value, and marks every
    /// registered waiter as woken with it. Returns the wake handles of the
    /// waiters that were suspended, which the caller must wake.
    pub fn signal(&mut self, val: T) -> (woken: Vec<W>)
        requires
            old(self).wf(),
        ensures
            final(self).wf(),
            signal_step(*old(self), *final(self), val),
            final(self).spec_name() == old(self).spec_name(),
            woken@ == pending_wakers(old(self).waiters()),
    {
        let ghost ws = self.waiters@;
        let mut rest: Vec<(u64, Slot<T, W>)> = Vec::new();
        core::mem::swap(&mut rest, &mut self.waiters);
        let mut woken: Vec<W> = Vec::new();
        let mut kept: Vec<(u64, Slot<T, W>)> = Vec::new();
        while rest.len() > 0
            invariant
                ws.len() <= WAKERS,
                unique_ids(ws),
                kept@.len() + rest@.len() == ws.len(),
                rest@ == ws.subrange(kept@.len() as int, ws.len() as int),
                kept@ == all_signaled(ws.subrange(0, kept@.len() as int), val),
                woken@ == pending_wakers(ws.subrange(0, kept@.len() as int)),
            decreases rest@.len(),
        {
            let ghost k = kept@.len() as int;
            let (id, slot) = rest.remove(0);
            assert(ws.subrange(0, k + 1).drop_last() =~= ws.subrange(0, k));
            assert(ws.subrange(0, k + 1).last() == ws[k]);
            match slot {
                Slot::Waiting(w) => {
                    woken.push(w);
                },
                Slot::Signaled(_) => {},
            }
            kept.push((id, Slot::Signaled(val)));
            assert(kept@ =~= all_signaled(ws.subrange(0, k + 1), val));
            assert(rest@ =~= ws.subrange(k + 1, ws.len() as int));
        }
        assert(ws.subrange(0, ws.len() as int) =~= ws);
        self.waiters = kept;
        self.value = Some(val);
        woken
    }

    /// Drops the held value, if any. Registered waiters stay registered.
    pub fn reset(&mut self)
        requires
            old(self).wf(),
        ensures
            final(self).wf(),
            reset_step(*old(self), *final(self)),
            final(self).spec_name() == old(self).spec_name(),
    {
        self.value = None;
    }

    /// Takes the held value out, leaving the signal empty. Registered
    /// waiters stay registered.
    pub fn try_take(&mut self) -> (r: Option<T>)
        requires
            old(self).wf(),
        ensures
            final(self).wf(),
            take_step(*old(self), *final(self), r),
            final(self).spec_name() == old(self).spec_name(),
    {
        self.value.take()
    }

    /// The held value, without taking it.
    pub fn peek(&self) -> (r: Option<T>)
        ensures
            r == self.current(),
    {
        self.value
    }

    /// Whether a value is held.
    pub fn is_signaled(&self) -> (r: bool)
        ensures
            r == self.current().is_some(),
    {
        self.value.is_some()
    }


    /// Whether another wait can still be started: ids are never reused, so
    /// a signal hands out at most `u64::MAX` of them.
    pub fn ids_left(&self) -> (r: bool)
        ensures
            r == (self.next_id() < u64::MAX),
    {
        self.next_id < u64::MAX
    }

    fn start_wait(&mut self, name: &'static str, next_only: bool) -> (r: Waiter)
        requires
            old(self).wf(),
            old(self).next_id() < u64::MAX,
        ensures
            final(self).wf(),
            wait_step(*old(self), *final(self)),
            r.spec_id() == old(self).next_id(),
            r.spec_next_only() == next_only,
            final(self).spec_name() == old(self).spec_name(),
    {
        let id = self.next_id;
        self.next_id = self.next_id + 1;
        Waiter { id, name, next_only }
    }

    /// Starts a wait. If a value is held when the wait is first polled, it
    /// completes at once with that value; otherwise it completes on the next
    /// signal.
    pub fn wait(&mut self, name: &'static str) -> (r: Waiter)
        requires
            old(self).wf(),
            old(self).next_id() < u64::MAX,
        ensures
            final(self).wf(),
            wait_step(*old(self), *final(self)),
            r.spec_id() == old(self).next_id(),
            !r.spec_next_only(),
            final(self).spec_name() == old(self).spec_name(),
    {
        self.start_wait(name, false)
    }

    /// Starts a wait that ignores any value already held and completes on
    /// the next signal.
    pub fn wait_next(&mut self, name: &'static str) -> (r: Waiter)
        requires
            old(self).wf(),
            old(self).next_id() < u64::MAX,
        ensures
            final(self).wf(),
            wait_step(*old(self), *final(self)),
            r.spec_id() == old(self).next_id(),
            r.spec_next_only(),
            final(self).spec_name() == old(self).spec_name(),
    {
        self.start_wait(name, true)
    }

    fn find_waiter(&self, id: u64) -> (r: Option<usize>)
        requires
            self.wf(),
        ensures
            r is Some <==> has_id(self.waiters(), id),
            r is Some ==> r->Some_0 == index_of(self.waiters(), id),
            r is Some ==> r->Some_0 < self.waiters().len(),
    {
        let mut i: usize = 0;
        while i < self.waiters.len()
            invariant
                self.wf(),
                i <= self.waiters@.len(),
                forall|j: int| 0 <= j < i ==> (#[trigger] self.waiters@[j]).0 != id,
            decreases self.waiters@.len() - i,
        {
            if self.waiters[i].0 == id {
                proof {
                    assert(self.waiters@[i as int].0 == id);
                    let k = index_of(self.waiters@, id);
                    if k != i as int {
                        assert(self.waiters@[k].0 != self.waiters@[i as int].0);
                    }
                }
                return Some(i);
            }
            i = i + 1;
        }
        None
    }

    /// Registers the waiter `id`, suspended with `waker`, at the end of the
    /// set.
    fn register(&mut self, id: u64, waker: W)
        requires
            old(self).wf(),
            !has_id(old(self).waiters(), id),
            id < old(self).next_id(),
            old(self).waiters().len() < WAKERS,
        ensures
            final(self).wf(),
            final(self).waiters() == old(self).waiters().push((id, Slot::<T, W>::Waiting(waker))),
            final(self).current() == old(self).current(),
            final(self).next_id() == old(self).next_id(),
            final(self).spec_name() == old(self).spec_name(),
    {
        let ghost ws = self.waiters@;
        self.waiters.push((id, Slot::Waiting(waker)));
        proof {
            lemma_push_keeps_ids_unique(ws, (id, Slot::Waiting(waker)));
            assert(forall|i: int| 0 <= i < ws.len() ==> #[trigger] self.waiters@[i] == ws[i]);
        }
    }

    /// Whether polling `waiter` finds a slot when it needs one.
    pub fn can_poll(&self, waiter: &Waiter) -> (r: bool)
        requires
            self.wf(),
        ensures
            r == poll_fits(*self, *waiter),
    {
        self.find_waiter(waiter.id).is_some() || (!waiter.next_only && self.value.is_some())
            || self.waiters.len() < WAKERS
    }

    /// Polls a wait. `waker` is the handle that the next signal hands back
    /// to wake the polling task.
    ///
    /// A waiter already woken completes with the value it was woken with
    /// and leaves the set; one still suspended keeps its slot with the new
    /// handle. A waiter not yet registered completes at once if it accepts
    /// the value already held, and is otherwise registered. Registering
    /// beyond the capacity is a sizing fault, which the caller rules out
    /// with `can_poll`.
    pub fn poll(&mut self, waiter: &Waiter, waker: W) -> (r: WaitPoll<T>)
        requires
            old(self).wf(),
            waiter.spec_id() < old(self).next_id(),
            poll_fits(*old(self), *waiter),
        ensures
            final(self).wf(),
            poll_step(*old(self), *final(self), *waiter, waker, r),
            final(self).spec_name() == old(self).spec_name(),
    {
        let id = waiter.id;
        match self.find_waiter(id) {
            Some(i) => {
                let ghost ws = self.waiters@;
                let is_signaled = match &self.waiters[i].1 {
                    Slot::Signaled(_) => true,
                    Slot::Waiting(_) => false,
                };
                if is_signaled {
                    let (_, slot) = self.waiters.remove(i);
                    proof {
                        lemma_remove_keeps_ids_unique(ws, i as int);
                        assert(forall|a: int| 0 <= a < self.waiters@.len() ==>
                            #[trigger] self.waiters@[a] == ws[if a < i { a } else { a + 1 }]);
                    }
                    match slot {
                        Slot::Signaled(v) => WaitPoll::Ready(v),
                        Slot::Waiting(_) => WaitPoll::Pending,
                    }
                } else {
                    self.waiters.set(i, (id, Slot::Waiting(waker)));
                    proof {
                        lemma_update_keeps_ids_unique(ws, i as int, (id, Slot::Waiting(waker)));
                        assert(forall|a: int| 0 <= a < self.waiters@.len() ==>
                            (#[trigger] self.waiters@[a]).0 == ws[a].0);
                    }
                    WaitPoll::Pending
                }
            },
            None => {
                if !waiter.next_only && self.value.is_some() {
                    match self.value {
                        Some(v) => WaitPoll::Ready(v),
                        None => WaitPoll::Pending,
                    }
                } else {
                    self.register(id, waker);
                    WaitPoll::Pending
                }
            },
        }
    }

    /// Abandons a wait: removes the waiter's registration, if it has one, so
    /// that its slot is free again.
    pub fn drop_waiter(&mut self, waiter: &Waiter)
        requires
            old(self).wf(),
        ensures
            final(self).wf(),
            drop_step(*old(self), *final(self), *waiter),
            !has_id(final(self).waiters(), waiter.spec_id()),
            final(self).spec_name() == old(self).spec_name(),
    {
        let ghost ws = self.waiters@;
        match self.find_waiter(waiter.id) {
            Some(i) => {
                self.waiters.remove(i);
                proof {
                    lemma_remove_keeps_ids_unique(ws, i as int);
                    assert(forall|a: int| 0 <= a < self.waiters@.len() ==>
                        #[trigger] self.waiters@[a] == ws[if a < i { a } else { a + 1 }]);
                    assert forall|a: int| 0 <= a < self.waiters@.len() implies (
                    #[trigger] self.waiters@[a]).0 != waiter.id by {
                        let a2 = if a < i { a } else { a + 1 };
                        assert(self.waiters@[a] == ws[a2]);
                        assert(a2 != i);
                    }
                }
            },
            None => {},
        }
    }

    /// Whether a wait in state `pending` has a slot for its registration:
    /// it holds one already, or one is free.
    pub fn has_room(&self, pending: &Option<Waiter>) -> (r: bool)
        requires
            self.wf(),
        ensures
            r == ((*pending is Some && has_id(self.waiters(), pending->Some_0.spec_id()))
                || self.waiters().len() < WAKERS),
    {
        let registered = match pending {
            Some(w) => self.find_waiter(w.id).is_some(),
            None => false,
        };
        registered || self.waiters.len() < WAKERS
    }

    /// One poll of a wait for the first value that `f` maps to `Some`.
    ///
    /// `pending` is the state of the wait between polls: `None` before the
    /// first poll and after completion. The first poll tries the value held
    /// and completes at once, registering nothing, when `f` accepts it;
    /// otherwise it registers a wait for the next signal. Later polls look
    /// at the wait's own slot only: a value signalled to it that `f`
    /// accepts completes the wait and frees the slot; one that `f` rejects
    /// registers the wait again, for the signal after it.
    pub fn wait_for<U, F: Fn(T) -> Option<U>>(
        &mut self,
        pending: &mut Option<Waiter>,
        name: &'static str,
        waker: W,
        f: &F,
    ) -> (r: WaitPoll<U>)
        requires
            old(self).wf(),
            forall|v: T| f.requires((v,)),
            *old(pending) is Some ==> (*old(pending))->Some_0.spec_id() < old(self).next_id()
                && (*old(pending))->Some_0.spec_next_only(),
            *old(pending) is None ==> old(self).next_id() < u64::MAX,
            wait_for_fits(*old(self), *old(pending), *f),
        ensures
            final(self).wf(),
            wait_for_step(*old(self), *final(self), *old(pending), *final(pending), waker, *f, r),
            final(self).spec_name() == old(self).spec_name(),
    {
        match pending {
            None => {
                match self.value {
                    Some(v) => {
                        match f(v) {
                            Some(u) => {
                                return WaitPoll::Ready(u);
                            },
                            None => {},
                        }
                    },
                    None => {},
                }
                let w = self.start_wait(name, true);
                let id = w.id;
                self.register(id, waker);
                *pending = Some(w);
                WaitPoll::Pending
            },
            Some(w) => {
                let id = w.id;
                match self.find_waiter(id) {
                    Some(i) => {
                        let ghost ws = self.waiters@;
                        let is_signaled = match &self.waiters[i].1 {
                            Slot::Signaled(_) => true,
                            Slot::Waiting(_) => false,
                        };
                        if is_signaled {
                            let (_, slot) = self.waiters.remove(i);
                            proof {
                                lemma_remove_keeps_ids_unique(ws, i as int);
                                assert(forall|a: int| 0 <= a < self.waiters@.len() ==>
                                    #[trigger] self.waiters@[a] == ws[if a < i { a } else { a + 1 }]);
                                assert forall|a: int| 0 <= a < self.waiters@.len() implies (
                                #[trigger] self.waiters@[a]).0 != id by {
                                    let a2 = if a < i { a } else { a + 1 };
                                    assert(self.waiters@[a] == ws[a2]);
                                    assert(a2 != i);
                                }
                            }
                            match slot {
                                Slot::Signaled(v) => match f(v) {
                                    Some(u) => {
                                        *pending = None;
                                        WaitPoll::Ready(u)
                                    },
                                    None => {
                                        self.register(id, waker);
                                        WaitPoll::Pending
                                    },
                                },
                                Slot::Waiting(_) => WaitPoll::Pending,
                            }
                        } else {
                            self.waiters.set(i, (id, Slot::Waiting(waker)));
                            proof {
                                lemma_update_keeps_ids_unique(ws, i as int, (id, Slot::Waiting(waker)));
                                assert(forall|a: int| 0 <= a < self.waiters@.len() ==>
                                    (#[trigger] self.waiters@[a]).0 == ws[a].0);
                            }
                            WaitPoll::Pending
                        }
                    },
                    None => {
                        self.register(id, waker);
                        WaitPoll::Pending
                    },
                }
            },
        }
    }
}

/// Every registered id is below `next`.
pub open spec fn ids_below<T, W>(ws: Seq<(u64, Slot<T, W>)>, next: u64) -> bool {
    forall|i: int| 0 <= i < ws.len() ==> (#[trigger] ws[i]).0 < next
}

/// What polling `waiter` with `waker` does to the waiter set `ws`, given the
/// held value `value`: `r` is the outcome and `ws2` the new set.
pub open spec fn poll_outcome<T, W>(
    ws: Seq<(u64, Slot<T, W>)>,
    value: Option<T>,
    waiter: Waiter,
    waker: W,
    r: WaitPoll<T>,
    ws2: Seq<(u64, Slot<T, W>)>,
) -> bool {
    let id = waiter.spec_id();
    if has_id(ws, id) {
        let i = index_of(ws, id);
        match ws[i].1 {
            Slot::Signaled(v) => r == WaitPoll::Ready(v) && ws2 == ws.remove(i),
            Slot::Waiting(_) => r == WaitPoll::<T>::Pending && ws2 == ws.update(
                i,
                (id, Slot::<T, W>::Waiting(waker)),
            ),
        }
    } else if !waiter.spec_next_only() && value is Some {
        r == WaitPoll::Ready(value->Some_0) && ws2 == ws
    } else {
        r == WaitPoll::<T>::Pending && ws2 == ws.push((id, Slot::<T, W>::Waiting(waker)))
    }
}

/// Polling `waiter` on `s` needs no slot beyond the capacity.
pub open spec fn poll_fits<T: Copy, W, const WAKERS: usize>(
    s: StickySignal<T, W, WAKERS>,
    waiter: Waiter,
) -> bool {
    has_id(s.waiters(), waiter.spec_id()) || (!waiter.spec_next_only() && s.current() is Some)
        || s.waiters().len() < WAKERS
}

/// `b` is what starting a wait leaves of `a`.
pub open spec fn wait_step<T: Copy, W, const WAKERS: usize>(
    a: StickySignal<T, W, WAKERS>,
    b: StickySignal<T, W, WAKERS>,
) -> bool {
    &&& b.current() == a.current()
    &&& b.waiters() == a.waiters()
    &&& b.next_id() == a.next_id() + 1
}

/// `b` is what polling `waiter` with `waker` leaves of `a`, and `r` what
/// the poll returns.
pub open spec fn poll_step<T: Copy, W, const WAKERS: usize>(
    a: StickySignal<T, W, WAKERS>,
    b: StickySignal<T, W, WAKERS>,
    waiter: Waiter,
    waker: W,
    r: WaitPoll<T>,
) -> bool {
    &&& b.current() == a.current()
    &&& b.next_id() == a.next_id()
    &&& poll_outcome(a.waiters(), a.current(), waiter, waker, r, b.waiters())
}

/// `b` is what abandoning `waiter` leaves of `a`.
pub open spec fn drop_step<T: Copy, W, const WAKERS: usize>(
    a: StickySignal<T, W, WAKERS>,
    b: StickySignal<T, W, WAKERS>,
    waiter: Waiter,
) -> bool {
    &&& b.current() == a.current()
    &&& b.next_id() == a.next_id()
    &&& b.waiters() == if has_id(a.waiters(), waiter.spec_id()) {
        a.waiters().remove(index_of(a.waiters(), waiter.spec_id()))
    } else {
        a.waiters()
    }
}

/// A predicate wait in state `p` on `s` needs no slot beyond the capacity:
/// it holds a slot already, one is free, or `f` surely accepts the value
/// held at its first poll.
pub open spec fn wait_for_fits<T: Copy, W, U, F: Fn(T) -> Option<U>, const WAKERS: usize>(
    s: StickySignal<T, W, WAKERS>,
    p: Option<Waiter>,
    f: F,
) -> bool {
    ||| (p is Some && has_id(s.waiters(), p->Some_0.spec_id()))
    ||| s.waiters().len() < WAKERS
    ||| (p is None && s.current() is Some && forall|o: Option<U>|
        f.ensures((s.current()->Some_0,), o) ==> o is Some)
}

/// One poll of a predicate wait: from `a` with the wait in state `p0` to
/// `b` with the wait in state `p1`, returning `r`.
pub open spec fn wait_for_step<T: Copy, W, U, F: Fn(T) -> Option<U>, const WAKERS: usize>(
    a: StickySignal<T, W, WAKERS>,
    b: StickySignal<T, W, WAKERS>,
    p0: Option<Waiter>,
    p1: Option<Waiter>,
    waker: W,
    f: F,
    r: WaitPoll<U>,
) -> bool {
    &&& b.current() == a.current()
    &&& match p0 {
        None => if r is Ready {
            // the value held is accepted: done, nothing registered
            &&& a.current() is Some
            &&& f.ensures((a.current()->Some_0,), Some(r->Ready_0))
            &&& p1 is None
            &&& b.waiters() == a.waiters()
            &&& b.next_id() == a.next_id()
        } else {
            // no value held, or it is rejected: wait for the next signal
            &&& a.current() is Some ==> f.ensures((a.current()->Some_0,), None::<U>)
            &&& p1 is Some
            &&& p1->Some_0.spec_id() == a.next_id()
            &&& p1->Some_0.spec_next_only()
            &&& b.next_id() == a.next_id() + 1
            &&& b.waiters() == a.waiters().push((a.next_id(), Slot::<T, W>::Waiting(waker)))
        },
        Some(w) => {
            let id = w.spec_id();
            &&& b.next_id() == a.next_id()
            &&& if has_id(a.waiters(), id) {
                let i = index_of(a.waiters(), id);
                match a.waiters()[i].1 {
                    Slot::Waiting(_) => {
                        &&& r is Pending
                        &&& p1 == p0
                        &&& b.waiters() == a.waiters().update(i, (id, Slot::<T, W>::Waiting(waker)))
                    },
                    Slot::Signaled(v) => if r is Ready {
                        &&& f.ensures((v,), Some(r->Ready_0))
                        &&& p1 is None
                        &&& b.waiters() == a.waiters().remove(i)
                    } else {
                        &&& f.ensures((v,), None::<U>)
                        &&& p1 == p0
                        &&& b.waiters() == a.waiters().remove(i).push(
                            (id, Slot::<T, W>::Waiting(waker)),
                        )
                    },
                }
            } else {
                &&& r is Pending
                &&& p1 == p0
                &&& b.waiters() == a.waiters().push((id, Slot::<T, W>::Waiting(waker)))
            }
        },
    }
}


proof fn lemma_remove_keeps_ids_unique<T, W>(ws: Seq<(u64, Slot<T, W>)>, i: int)
    requires
        unique_ids(ws),
        0 <= i < ws.len(),
    ensures
        unique_ids(ws.remove(i)),
{
    let r = ws.remove(i);
    assert forall|a: int, b: int|
        0 <= a < r.len() && 0 <= b < r.len() && a != b implies (#[trigger] r[a]).0 != (
        #[trigger] r[b]).0 by {
        let a2 = if a < i { a } else { a + 1 };
        let b2 = if b < i { b } else { b + 1 };
        assert(r[a] == ws[a2]);
        assert(r[b] == ws[b2]);
    }
}

proof fn lemma_update_keeps_ids_unique<T, W>(ws: Seq<(u64, Slot<T, W>)>, i: int, e: (u64, Slot<T, W>))
    requires
        unique_ids(ws),
        0 <= i < ws.len(),
        e.0 == ws[i].0,
    ensures
        unique_ids(ws.update(i, e)),
{
    let u = ws.update(i, e);
    assert forall|a: int, b: int|
        0 <= a < u.len() && 0 <= b < u.len() && a != b implies (#[trigger] u[a]).0 != (
        #[trigger] u[b]).0 by {
        assert(u[a].0 == ws[a].0);
        assert(u[b].0 == ws[b].0);
    }
}

proof fn lemma_push_keeps_ids_unique<T, W>(ws: Seq<(u64, Slot<T, W>)>, e: (u64, Slot<T, W>))
    requires
        unique_ids(ws),
        !has_id(ws, e.0),
    ensures
        unique_ids(ws.push(e)),
{
    let p = ws.push(e);
    assert forall|a: int, b: int|
        0 <= a < p.len() && 0 <= b < p.len() && a != b implies (#[trigger] p[a]).0 != (
        #[trigger] p[b]).0 by {
        if a < ws.len() {
            assert(p[a] == ws[a]);
        }
        if b < ws.len() {
            assert(p[b] == ws[b]);
        }
    }
}

/// `b` is what `signal(v)` leaves of `a`.
pub open spec fn signal_step<T: Copy, W, const WAKERS: usize>(
    a: StickySignal<T, W, WAKERS>,
    b: StickySignal<T, W, WAKERS>,
    v: T,
) -> bool {
    &&& b.current() == Some(v)
    &&& b.waiters() == all_signaled(a.waiters(), v)
    &&& b.next_id() == a.next_id()
}

/// `b` is what `reset()` leaves of `a`.
pub open spec fn reset_step<T: Copy, W, const WAKERS: usize>(
    a: StickySignal<T, W, WAKERS>,
    b: StickySignal<T, W, WAKERS>,
) -> bool {
    &&& b.current() == None::<T>
    &&& b.waiters() == a.waiters()
    &&& b.next_id() == a.next_id()
}

/// `b` is what `try_take()` leaves of `a`, and `r` what it returns.
pub open spec fn take_step<T: Copy, W, const WAKERS: usize>(
    a: StickySignal<T, W, WAKERS>,
    b: StickySignal<T, W, WAKERS>,
    r: Option<T>,
) -> bool {
    &&& r == a.current()
    &&& b.current() == None::<T>
    &&& b.waiters() == a.waiters()
    &&& b.next_id() == a.next_id()
}

/// After `signal(v)`, `peek()` returns `Some(v)`; starting a wait, polling
/// one or abandoning one leaves it so, until a `reset`, a `try_take` or
/// another `signal`.
pub proof fn law_retention<T: Copy, W, const WAKERS: usize>(
    s0: StickySignal<T, W, WAKERS>,
    s1: StickySignal<T, W, WAKERS>,
    s2: StickySignal<T, W, WAKERS>,
    v: T,
    waiter: Waiter,
    waker: W,
    r: WaitPoll<T>,
)
    requires
        signal_step(s0, s1, v),
        wait_step(s1, s2) || poll_step(s1, s2, waiter, waker, r) || drop_step(s1, s2, waiter),
    ensures
        s1.current() == Some(v),
        s2.current() == Some(v),
{
}

/// A predicate wait whose first poll finds a value held that `f` maps to
/// `Some(u)` (and to nothing else) completes at once with `u`, registering
/// nothing and changing nothing.
pub proof fn law_wait_for_held<T: Copy, W, U, F: Fn(T) -> Option<U>, const WAKERS: usize>(
    a: StickySignal<T, W, WAKERS>,
    b: StickySignal<T, W, WAKERS>,
    p1: Option<Waiter>,
    waker: W,
    f: F,
    r: WaitPoll<U>,
    v: T,
    u: U,
)
    requires
        a.current() == Some(v),
        forall|o: Option<U>| f.ensures((v,), o) ==> o == Some(u),
        wait_for_step(a, b, None, p1, waker, f, r),
    ensures
        r == WaitPoll::Ready(u),
        p1 is None,
        b.waiters() == a.waiters(),
        b.current() == a.current(),
{
    if !(r is Ready) {
        assert(f.ensures((v,), None::<U>));
    }
}

/// A predicate wait that is registered completes only with `f` of the value
/// signalled to its own slot, leaving no registration behind; while its
/// slot holds no value, or one that `f` rejects, it stays pending and
/// registered.
pub proof fn law_wait_for_signaled<T: Copy, W, U, F: Fn(T) -> Option<U>, const WAKERS: usize>(
    a: StickySignal<T, W, WAKERS>,
    b: StickySignal<T, W, WAKERS>,
    w: Waiter,
    p1: Option<Waiter>,
    waker: W,
    f: F,
    r: WaitPoll<U>,
)
    requires
        a.wf(),
        has_id(a.waiters(), w.spec_id()),
        wait_for_step(a, b, Some(w), p1, waker, f, r),
    ensures
        ({
            let slot = a.waiters()[index_of(a.waiters(), w.spec_id())].1;
            &&& r is Ready ==> (exists|v: T|
                slot == Slot::<T, W>::Signaled(v) && #[trigger] f.ensures((v,), Some(r->Ready_0)))
            &&& r is Ready ==> !has_id(b.waiters(), w.spec_id())
            &&& r is Pending ==> p1 == Some(w) && has_id(b.waiters(), w.spec_id())
        }),
        b.current() == a.current(),
{
    let ws = a.waiters();
    let i = index_of(ws, w.spec_id());
    assert(ws[i].0 == w.spec_id());
    match ws[i].1 {
        Slot::Signaled(v) => {
            if r is Ready {
                assert(f.ensures((v,), Some(r->Ready_0)));
                assert forall|k: int| 0 <= k < b.waiters().len() implies (
                #[trigger] b.waiters()[k]).0 != w.spec_id() by {
                    let k2 = if k < i { k } else { k + 1 };
                    assert(b.waiters()[k] == ws[k2]);
                    if k2 != i {
                        assert(ws[k2].0 != ws[i].0);
                    }
                }
            } else {
                assert(b.waiters()[b.waiters().len() - 1].0 == w.spec_id());
            }
        },
        Slot::Waiting(_) => {
            assert(b.waiters()[i].0 == w.spec_id());
        },
    }
}

/// After `signal(v)`, the first `try_take()` returns `Some(v)` and the one
/// after it returns `None`.
pub proof fn law_one_shot<T: Copy, W, const WAKERS: usize>(
    s0: StickySignal<T, W, WAKERS>,
    s1: StickySignal<T, W, WAKERS>,
    s2: StickySignal<T, W, WAKERS>,
    s3: StickySignal<T, W, WAKERS>,
    v: T,
    r1: Option<T>,
    r2: Option<T>,
)
    requires
        signal_step(s0, s1, v),
        take_step(s1, s2, r1),
        take_step(s2, s3, r2),
    ensures
        r1 == Some(v),
        r2 == None::<T>,
        s3.current() == None::<T>,
{
}

/// `reset()` after `signal(v)` leaves no value to peek at.
pub proof fn law_reset<T: Copy, W, const WAKERS: usize>(
    s0: StickySignal<T, W, WAKERS>,
    s1: StickySignal<T, W, WAKERS>,
    s2: StickySignal<T, W, WAKERS>,
    v: T,
)
    requires
        signal_step(s0, s1, v),
        reset_step(s1, s2),
    ensures
        s2.current() == None::<T>,
{
}

proof fn lemma_all_waiting_woken<T, W>(ws: Seq<(u64, Slot<T, W>)>)
    requires
        forall|i: int| 0 <= i < ws.len() ==> (#[trigger] ws[i]).1 is Waiting,
    ensures
        pending_wakers(ws).len() == ws.len(),
        forall|i: int|
            0 <= i < ws.len() ==> ws[i].1 == Slot::<T, W>::Waiting(#[trigger] pending_wakers(ws)[i]),
    decreases ws.len(),
{
    if ws.len() > 0 {
        let rest = ws.drop_last();
        assert forall|i: int| 0 <= i < rest.len() implies (#[trigger] rest[i]).1 is Waiting by {
            assert(rest[i] == ws[i]);
        }
        lemma_all_waiting_woken(rest);
        assert(ws[ws.len() - 1].1 is Waiting);
        assert forall|i: int| 0 <= i < ws.len() implies ws[i].1 == Slot::<T, W>::Waiting(
            #[trigger] pending_wakers(ws)[i],
        ) by {
            if i < rest.len() {
                assert(rest[i] == ws[i]);
            }
        }
    }
}

/// When every registered waiter is suspended, one `signal(v)` hands back
/// the wake handle of each of them, and each of them, polled afterwards,
/// completes with `v`.
pub proof fn law_wake_all<T: Copy, W, const WAKERS: usize>(
    s0: StickySignal<T, W, WAKERS>,
    s1: StickySignal<T, W, WAKERS>,
    v: T,
    s2: StickySignal<T, W, WAKERS>,
    waiter: Waiter,
    waker: W,
    r: WaitPoll<T>,
)
    requires
        s0.wf(),
        forall|i: int| 0 <= i < s0.waiters().len() ==> (#[trigger] s0.waiters()[i]).1 is Waiting,
        signal_step(s0, s1, v),
        has_id(s0.waiters(), waiter.spec_id()),
        poll_step(s1, s2, waiter, waker, r),
    ensures
        pending_wakers(s0.waiters()).len() == s0.waiters().len(),
        forall|i: int|
            0 <= i < s0.waiters().len() ==> s0.waiters()[i].1 == Slot::<T, W>::Waiting(
                #[trigger] pending_wakers(s0.waiters())[i],
            ),
        r == WaitPoll::Ready(v),
{
    lemma_all_waiting_woken(s0.waiters());
    let ws = s0.waiters();
    let i = index_of(ws, waiter.spec_id());
    assert(s1.waiters()[i].0 == waiter.spec_id());
    assert(has_id(s1.waiters(), waiter.spec_id()));
    let k = index_of(s1.waiters(), waiter.spec_id());
    assert(s1.waiters()[k] == (ws[k].0, Slot::<T, W>::Signaled(v)));
}

} // verus!
