//! The early buffer: requests wait here, earliest deadline first, until the clock
//! passes their deadline; each request has a notifier through which it is released.

use vstd::prelude::*;
use std::collections::HashMap;
use crate::clock::{ClockState, strictly_increasing};

verus! {

broadcast use vstd::std_specs::hash::group_hash_axioms;

/// A request that can be held back until its deadline.
pub trait Request {
    /// The deadline of the request, in nanoseconds since the epoch.
    fn get_deadline(&self) -> u64;

    /// The identifier of the request.
    fn get_id(&self) -> usize;
}

/// A buffered request with the deadline and identifier it was queued under.
pub struct StoredRequest<R> {
    /// The deadline the request waits for.
    pub deadline: u64,
    /// The identifier its notifier is registered under.
    pub id: usize,
    /// The request itself.
    pub req: R,
}

/// The deadlines of `q` are in ascending order.
pub open spec fn deadline_sorted<R>(q: Seq<StoredRequest<R>>) -> bool {
    forall|i: int, j: int| 0 <= i <= j < q.len() ==> q[i].deadline <= q[j].deadline
}

/// Requests held until their deadline, with the notifier of each request id.
/// `N` is what hands a released request to the one waiting for it.
pub struct Buffers<R, N> {
    early: Vec<StoredRequest<R>>,
    notifiers: HashMap<usize, N>,
}

impl<R, N> Buffers<R, N> {
    /// The buffered requests, earliest deadline first.
    pub closed spec fn queue(&self) -> Seq<StoredRequest<R>> {
        self.early@
    }

    /// The notifier registered for each request id.
    pub closed spec fn notifier_map(&self) -> Map<usize, N> {
        self.notifiers@
    }

    /// The invariant: the buffer is ordered by deadline.
    pub open spec fn wf(&self) -> bool {
        deadline_sorted(self.queue())
    }

    /// `next` is `self` after queueing `req` under `deadline` and `id` with notifier `n`.
    pub open spec fn queued(&self, next: &Self, deadline: u64, id: usize, req: R, n: N) -> bool {
        &&& exists|p: int|
            0 <= p <= self.queue().len() && next.queue() == self.queue().insert(
                p,
                StoredRequest { deadline, id, req },
            )
        &&& next.notifier_map() == self.notifier_map().insert(id, n)
    }

    /// An empty buffer.
    pub fn new() -> (b: Self)
        ensures
            b.wf(),
            b.queue() == Seq::<StoredRequest<R>>::empty(),
            b.notifier_map() == Map::<usize, N>::empty(),
    {
        Buffers { early: Vec::new(), notifiers: HashMap::new() }
    }

    /// Queues `req` under `deadline` and `id` with notifier `n`, after any request with
    /// the same deadline.  A notifier already registered for `id` is replaced and
    /// handed back.
    pub fn insert_keyed(&mut self, deadline: u64, id: usize, req: R, n: N) -> (displaced: Option<N>)
        requires
            old(self).wf(),
        ensures
            final(self).wf(),
            old(self).queued(&*final(self), deadline, id, req, n),
            match displaced {
                Some(v) => old(self).notifier_map().contains_key(id) && v == old(
                    self,
                ).notifier_map()[id],
                None => !old(self).notifier_map().contains_key(id),
            },
    {
        let ghost old_q = self.early@;
        let displaced = self.notifiers.insert(id, n);
        let mut p: usize = 0;
        while p < self.early.len() && self.early[p].deadline <= deadline
            invariant
                self.early@ == old_q,
                deadline_sorted(old_q),
                0 <= p <= old_q.len(),
                forall|i: int| 0 <= i < p ==> old_q[i].deadline <= deadline,
            decreases old_q.len() - p,
        {
            p = p + 1;
        }
        let ghost item = StoredRequest { deadline, id, req };
        self.early.insert(p, StoredRequest { deadline, id, req });
        proof {
            let s = self.early@;
            assert(s == old_q.insert(p as int, item));
            assert forall|i: int, j: int| 0 <= i <= j < s.len() implies s[i].deadline
                <= s[j].deadline by {
                if j < p {
                } else if j == p {
                    if i < p {
                        assert(old_q[i].deadline <= deadline);
                    }
                } else {
                    assert(s[j] == old_q[j - 1]);
                    if p < old_q.len() {
                        assert(old_q[p as int].deadline > deadline);
                        assert(old_q[p as int].deadline <= old_q[j - 1].deadline);
                    }
                    if i < p {
                        assert(old_q[i].deadline <= old_q[j - 1].deadline);
                    } else if i > p {
                        assert(s[i] == old_q[i - 1]);
                    }
                }
            }
        }
        displaced
    }

    /// Queues `req` under the deadline and id that the request reports (the values its
    /// `get_deadline` and `get_id` return), with notifier `n`; hands back a notifier it
    /// replaces.
    pub fn insert(&mut self, req: R, n: N) -> (displaced: Option<N>) where R: Request
        requires
            old(self).wf(),
        ensures
            final(self).wf(),
            exists|deadline: u64, id: usize|
                {
                    &&& call_ensures(R::get_deadline, (&req,), deadline)
                    &&& call_ensures(R::get_id, (&req,), id)
                    &&& #[trigger] old(self).queued(&*final(self), deadline, id, req, n)
                    &&& match displaced {
                        Some(v) => old(self).notifier_map().contains_key(id) && v == old(
                            self,
                        ).notifier_map()[id],
                        None => !old(self).notifier_map().contains_key(id),
                    }
                },
    {
        let deadline = req.get_deadline();
        let id = req.get_id();
        self.insert_keyed(deadline, id, req, n)
    }

    /// Takes the request with the earliest deadline out of the buffer, together with the
    /// notifier registered for its id (which is removed too); `None` when the buffer is
    /// empty.
    pub fn pop_earliest(&mut self) -> (r: Option<(Option<N>, R)>)
        requires
            old(self).wf(),
        ensures
            final(self).wf(),
            old(self).queue().len() == 0 ==> r is None && final(self).queue() == old(self).queue()
                && final(self).notifier_map() == old(self).notifier_map(),
            old(self).queue().len() > 0 ==> {
                let first = old(self).queue()[0];
                &&& final(self).queue() == old(self).queue().drop_first()
                &&& final(self).notifier_map() == old(self).notifier_map().remove(first.id)
                &&& r == Some(
                    (
                        if old(self).notifier_map().contains_key(first.id) {
                            Some(old(self).notifier_map()[first.id])
                        } else {
                            None
                        },
                        first.req,
                    ),
                )
            },
    {
        if self.early.len() == 0 {
            return None;
        }
        let first = self.early.remove(0);
        let notifier = self.notifiers.remove(&first.id);
        proof {
            assert(self.early@ =~= old(self).queue().drop_first());
        }
        Some((notifier, first.req))
    }

    /// Takes the request with the earliest deadline out of the buffer, with its
    /// notifier, and queues `w` in `clock` under that request's deadline, so that the
    /// clock wakes `w` once its time has passed the deadline.  Hands back the
    /// notifier, the request and any waiter `w` displaced in the clock; `None`, with
    /// both left as they were, when the buffer is empty.
    pub fn schedule_earliest<W>(&mut self, clock: &mut ClockState<W>, w: W) -> (r: Option<
        (Option<N>, R, Option<W>),
    >)
        requires
            old(self).wf(),
            old(clock).wf(),
        ensures
            final(self).wf(),
            final(clock).wf(),
            old(self).queue().len() == 0 ==> r is None && final(self).queue() == old(self).queue()
                && final(self).notifier_map() == old(self).notifier_map() && *final(clock) == *old(
                clock,
            ),
            old(self).queue().len() > 0 ==> {
                let first = old(self).queue()[0];
                &&& final(self).queue() == old(self).queue().drop_first()
                &&& final(self).notifier_map() == old(self).notifier_map().remove(first.id)
                &&& old(clock).deadline_added(&*final(clock), first.deadline, w)
                &&& r matches Some((n, req, displaced)) && {
                    &&& n == (if old(self).notifier_map().contains_key(first.id) {
                        Some(old(self).notifier_map()[first.id])
                    } else {
                        None
                    })
                    &&& req == first.req
                    &&& match displaced {
                        Some(v) => old(clock).waiters().contains_key(first.deadline) && v == old(
                            clock,
                        ).waiters()[first.deadline],
                        None => !old(clock).waiters().contains_key(first.deadline),
                    }
                }
            },
    {
        if self.early.len() == 0 {
            return None;
        }
        let first = self.early.remove(0);
        let notifier = self.notifiers.remove(&first.id);
        proof {
            assert(self.early@ =~= old(self).queue().drop_first());
        }
        let displaced = clock.add_deadline(first.deadline, w);
        Some((notifier, first.req, displaced))
    }
}

/// The buffer always releases a request whose deadline is no later than that of any
/// other buffered request.
pub proof fn earliest_deadline_first<R, N>(b: Buffers<R, N>)
    requires
        b.wf(),
        b.queue().len() > 0,
    ensures
        forall|i: int| 0 <= i < b.queue().len() ==> b.queue()[0].deadline <= #[trigger] b.queue()[i].deadline,
{
}

/// Successive releases never go back in time: after the earliest request leaves, the
/// next one to leave has a deadline no earlier than it, and the buffer stays ordered.
pub proof fn releases_in_deadline_order<R, N>(b: Buffers<R, N>, next: Buffers<R, N>)
    requires
        b.wf(),
        b.queue().len() >= 2,
        next.queue() == b.queue().drop_first(),
    ensures
        next.wf(),
        b.queue()[0].deadline <= next.queue()[0].deadline,
{
}

/// A request queued into an empty buffer is the next one released, with its notifier.
pub proof fn insert_then_pop_empty<R, N>(
    b: Buffers<R, N>,
    next: Buffers<R, N>,
    deadline: u64,
    id: usize,
    req: R,
    n: N,
)
    requires
        b.queue().len() == 0,
        b.queued(&next, deadline, id, req, n),
    ensures
        next.queue().len() == 1,
        next.queue()[0] == (StoredRequest { deadline, id, req }),
        next.notifier_map().contains_key(id) && next.notifier_map()[id] == n,
{
    let p = choose|p: int|
        0 <= p <= b.queue().len() && next.queue() == b.queue().insert(
            p,
            StoredRequest { deadline, id, req },
        );
    assert(p == 0);
}

/// A buffered request is released only once the clock has passed its deadline.  When
/// the earliest request leaves the buffer and its waiter is queued in the clock under the
/// request's deadline (what `schedule_earliest` does), a tick that does not move the time past that deadline leaves the
/// waiter queued, and a tick that does wakes it and forgets it.
pub proof fn release_only_after_deadline<R, N, W>(
    b: Buffers<R, N>,
    c: ClockState<W>,
    queued: ClockState<W>,
    ticked: ClockState<W>,
    w: W,
    fast: bool,
    fired: Seq<W>,
    resync: bool,
)
    requires
        b.wf(),
        b.queue().len() > 0,
        c.deadline_added(&queued, b.queue()[0].deadline, w),
        queued.ticked(&ticked, fast, fired, resync),
    ensures
        b.queue()[0].deadline >= ticked.time() ==> ticked.waiters().contains_key(
            b.queue()[0].deadline,
        ) && ticked.waiters()[b.queue()[0].deadline] == w,
        b.queue()[0].deadline < ticked.time() ==> (exists|i: int|
            0 <= i < fired.len() && fired[i] == w) && !ticked.waiters().contains_key(
            b.queue()[0].deadline,
        ),
{
    let d = b.queue()[0].deadline;
    let t = ticked.time();
    let m = queued.waiters();
    assert(m.contains_key(d) && m[d] == w);
    if d < t {
        let ks = choose|ks: Seq<u64>|
            {
                &&& strictly_increasing(ks)
                &&& ks.to_set() == m.dom().filter(|k: u64| k < t)
                &&& fired.len() == ks.len()
                &&& forall|i: int| 0 <= i < ks.len() ==> fired[i] == m[#[trigger] ks[i]]
            };
        assert(m.dom().filter(|k: u64| k < t).contains(d));
        assert(ks.to_set().contains(d));
        let i = choose|i: int| 0 <= i < ks.len() && ks[i] == d;
        assert(fired[i] == w);
    }
}

} // verus!
