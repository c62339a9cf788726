//! The simulated replica clock: a logical time that advances by one millisecond
//! per tick, plus or minus a drift, an uncertainty that grows with every tick
//! since the last resynchronization, and a queue of deadlines whose waiters are
//! woken once the logical time has passed them.

use vstd::prelude::*;
use std::collections::HashMap;
use rand::rngs::StdRng;
use crate::coin::flip_coin;
use crate::messages::{PaxosMessage, PaxosMsg};
use crate::util::NodeId;

verus! {

broadcast use vstd::std_specs::hash::group_hash_axioms;

/// Identifier of a clock instance.
pub type ClockId = usize;

/// Nanoseconds the logical time advances per tick before drift (one millisecond).
pub const TICK_NANOS: u64 = 1000000;

/// Nanoseconds between the logical time and a fresh deadline (twenty milliseconds).
pub const DEADLINE_NANOS: u64 = 20000000;

/// The node whose clock is the reference for resynchronization.
pub const MASTER_NODE: NodeId = 1;

/// Errors of the clock.
pub enum ClockError {
    /// The clock cannot order two events.
    Ambig(String),
}

/// The elements of `s` are in ascending order.
pub open spec fn sorted(s: Seq<u64>) -> bool {
    forall|i: int, j: int| 0 <= i <= j < s.len() ==> s[i] <= s[j]
}

/// The elements of `s` are in strictly ascending order.
pub open spec fn strictly_increasing(s: Seq<u64>) -> bool {
    forall|i: int, j: int| 0 <= i < j < s.len() ==> s[i] < s[j]
}

/// How far one tick moves the logical time: a millisecond plus the drift when the
/// clock runs fast, a millisecond minus the drift (never below zero) when it runs slow.
pub open spec fn advance(fast: bool, drift: u64) -> int {
    if fast {
        TICK_NANOS + drift
    } else if drift >= TICK_NANOS {
        0
    } else {
        TICK_NANOS - drift
    }
}

/// `fired` holds the waiters of `m` whose deadline is before `t`, one per deadline,
/// in ascending order of deadline.
pub open spec fn fired_in_order<W>(fired: Seq<W>, m: Map<u64, W>, t: u64) -> bool {
    exists|ks: Seq<u64>|
        {
            &&& strictly_increasing(ks)
            &&& ks.to_set() == m.dom().filter(|k: u64| k < t)
            &&& fired.len() == ks.len()
            &&& forall|i: int| 0 <= i < ks.len() ==> fired[i] == m[#[trigger] ks[i]]
        }
}

/// The set of values that occur in `s` before position `j`.
pub open spec fn prefix_set(s: Seq<u64>, j: int) -> Set<u64> {
    Set::new(|k: u64| exists|i: int| 0 <= i < j && s[i] == k)
}

/// What one tick produced.
pub struct TickOutcome<W> {
    /// The waiters whose deadlines passed, in ascending order of deadline.
    pub fired: Vec<W>,
    /// Whether the tick counter reached the synchronization frequency, so that the
    /// clock must now resynchronize with the master.
    pub resync: bool,
}

/// The state of a replica clock.  `W` is what wakes a waiter of a deadline.
pub struct ClockState<W> {
    id: ClockId,
    master: NodeId,
    drift: u64,
    uncertainty: u64,
    sync_freq: u32,
    logical_time: u64,
    counter: u32,
    deadlines: Vec<u64>,
    database: HashMap<u64, W>,
}

impl<W> ClockState<W> {
    /// The identifier of this clock.
    pub closed spec fn id(&self) -> ClockId {
        self.id
    }

    /// The node that owns this clock.
    pub closed spec fn master(&self) -> NodeId {
        self.master
    }

    /// Worst-case drift per tick, in nanoseconds.
    pub closed spec fn drift(&self) -> u64 {
        self.drift
    }

    /// Base uncertainty, in nanoseconds.
    pub closed spec fn base_uncertainty(&self) -> u64 {
        self.uncertainty
    }

    /// Number of ticks between two resynchronizations.
    pub closed spec fn sync_freq(&self) -> u32 {
        self.sync_freq
    }

    /// The logical time, in nanoseconds since the epoch.
    pub closed spec fn time(&self) -> u64 {
        self.logical_time
    }

    /// Ticks since the last resynchronization.
    pub closed spec fn counter(&self) -> u32 {
        self.counter
    }

    /// The queued deadlines, in ascending order, with repetitions.
    pub closed spec fn pending(&self) -> Seq<u64> {
        self.deadlines@
    }

    /// The waiter registered for each deadline.
    pub closed spec fn waiters(&self) -> Map<u64, W> {
        self.database@
    }

    /// The current uncertainty: the base uncertainty plus the drift of every tick
    /// since the last resynchronization.
    pub open spec fn uncertainty_now(&self) -> int {
        self.base_uncertainty() + self.counter() * self.drift()
    }

    /// The invariant of the clock: deadlines are sorted, every waiter has its deadline
    /// queued, and the tick counter is below the synchronization frequency (or zero).
    pub closed spec fn wf(&self) -> bool {
        &&& sorted(self.deadlines@)
        &&& forall|k: u64| #[trigger] self.database@.contains_key(k) ==> self.deadlines@.contains(k)
        &&& (self.counter == 0 || self.counter < self.sync_freq)
    }

    /// The settings of the clock are those of `other`.
    pub open spec fn same_settings(&self, other: &Self) -> bool {
        &&& self.id() == other.id()
        &&& self.master() == other.master()
        &&& self.drift() == other.drift()
        &&& self.sync_freq() == other.sync_freq()
    }

    /// `next` is `self` after waking every waiter whose deadline is before the logical
    /// time, which woke the waiters `fired`.
    pub open spec fn expired(&self, next: &Self, fired: Seq<W>) -> bool {
        let t = self.time();
        let k = self.pending().len() - next.pending().len();
        &&& next.same_settings(self)
        &&& next.base_uncertainty() == self.base_uncertainty()
        &&& next.time() == t
        &&& next.counter() == self.counter()
        &&& 0 <= k <= self.pending().len()
        &&& next.pending() == self.pending().skip(k)
        &&& forall|i: int| 0 <= i < k ==> self.pending()[i] < t
        &&& forall|i: int| 0 <= i < next.pending().len() ==> next.pending()[i] >= t
        &&& next.waiters() == self.waiters().filter_keys(|d: u64| d >= t)
        &&& fired_in_order(fired, self.waiters(), t)
    }

    /// `next` is `self` after one tick in direction `fast`, which woke the waiters
    /// `fired` and asked for a resynchronization when `resync` holds.
    pub open spec fn ticked(&self, next: &Self, fast: bool, fired: Seq<W>, resync: bool) -> bool {
        let moved = self.time() + advance(fast, self.drift());
        let count = self.counter() + 1;
        &&& next.same_settings(self)
        &&& next.base_uncertainty() == self.base_uncertainty()
        &&& next.time() == moved
        &&& resync == (count >= self.sync_freq())
        &&& next.counter() == (if resync { 0 } else { count })
        &&& {
            let k = self.pending().len() - next.pending().len();
            &&& 0 <= k <= self.pending().len()
            &&& next.pending() == self.pending().skip(k)
            &&& forall|i: int| 0 <= i < k ==> self.pending()[i] < moved
            &&& forall|i: int| 0 <= i < next.pending().len() ==> next.pending()[i] >= moved
        }
        &&& next.waiters() == self.waiters().filter_keys(|d: u64| d >= moved)
        &&& fired_in_order(fired, self.waiters(), moved as u64)
    }

    /// `next` is `self` after queueing `deadline` with waiter `w`.
    pub open spec fn deadline_added(&self, next: &Self, deadline: u64, w: W) -> bool {
        &&& next.same_settings(self)
        &&& next.base_uncertainty() == self.base_uncertainty()
        &&& next.time() == self.time()
        &&& next.counter() == self.counter()
        &&& exists|p: int|
            0 <= p <= self.pending().len() && next.pending() == self.pending().insert(p, deadline)
        &&& next.waiters() == self.waiters().insert(deadline, w)
    }

    /// `next` is `self` resynchronized to `real_time`.
    pub open spec fn resynced_to(&self, next: &Self, real_time: u64) -> bool {
        &&& next.same_settings(self)
        &&& next.time() == real_time
        &&& next.counter() == 0
        &&& next.base_uncertainty() == 0
        &&& next.pending() == self.pending()
        &&& next.waiters() == self.waiters()
    }

    /// A clock with id `id` owned by node `master`, reading `now`, with no deadline.
    pub fn new(
        id: ClockId,
        master: NodeId,
        drift: u64,
        uncertainty: u64,
        sync_freq: u32,
        now: u64,
    ) -> (c: Self)
        ensures
            c.wf(),
            c.id() == id,
            c.master() == master,
            c.drift() == drift,
            c.base_uncertainty() == uncertainty,
            c.sync_freq() == sync_freq,
            c.time() == now,
            c.counter() == 0,
            c.pending() == Seq::<u64>::empty(),
            c.waiters() == Map::<u64, W>::empty(),
    {
        ClockState {
            id,
            master,
            drift,
            uncertainty,
            sync_freq,
            logical_time: now,
            counter: 0,
            deadlines: Vec::new(),
            database: HashMap::new(),
        }
    }

    /// The logical time.
    pub fn get_time(&self) -> (t: u64)
        ensures
            t == self.time(),
    {
        self.logical_time
    }

    /// The drift per tick, in nanoseconds.
    pub fn get_drift(&self) -> (d: u64)
        ensures
            d == self.drift(),
    {
        self.drift
    }

    /// Ticks since the last resynchronization.
    pub fn get_counter(&self) -> (c: u32)
        ensures
            c == self.counter(),
    {
        self.counter
    }

    /// The base uncertainty, in nanoseconds.
    pub fn get_base_uncertainty(&self) -> (u: u64)
        ensures
            u == self.base_uncertainty(),
    {
        self.uncertainty
    }

    /// A deadline twenty milliseconds after the logical time.
    pub fn new_deadline(&self) -> (d: u64)
        requires
            self.time() + DEADLINE_NANOS <= u64::MAX,
        ensures
            d == self.time() + DEADLINE_NANOS,
    {
        self.logical_time + DEADLINE_NANOS
    }

    /// The current uncertainty: base uncertainty plus drift times ticks since the last
    /// resynchronization.
    pub fn get_uncertainty(&self) -> (u: u64)
        requires
            self.uncertainty_now() <= u64::MAX,
        ensures
            u == self.uncertainty_now(),
    {
        proof {
            vstd::arithmetic::mul::lemma_mul_nonnegative(self.counter() as int, self.drift() as int);
        }
        let spread: u64 = self.counter as u64 * self.drift;
        self.uncertainty + spread
    }

    /// Sets the logical time to `real_time` and clears the tick counter and the
    /// uncertainty.
    pub fn resync(&mut self, real_time: u64)
        requires
            old(self).wf(),
        ensures
            final(self).wf(),
            old(self).resynced_to(&*final(self), real_time),
    {
        self.logical_time = real_time;
        self.counter = 0;
        self.uncertainty = 0;
    }

    /// The message that asks the master for its time, or `None` when this clock's owner
    /// is the master itself and reads its own time.
    pub fn sync_request<T>(&self) -> (m: Option<PaxosMessage<T>>)
        ensures
            self.master() == MASTER_NODE ==> m is None,
            self.master() != MASTER_NODE ==> m == Some(
                PaxosMessage::<T> { from: self.master(), to: MASTER_NODE, msg: PaxosMsg::SyncReq },
            ),
    {
        if self.master == MASTER_NODE {
            None
        } else {
            Some(PaxosMessage { from: self.master, to: MASTER_NODE, msg: PaxosMsg::SyncReq })
        }
    }

    /// Queues `deadline` with its waiter `w`.  A waiter already registered for the same
    /// deadline is replaced and handed back.
    pub fn add_deadline(&mut self, deadline: u64, w: W) -> (displaced: Option<W>)
        requires
            old(self).wf(),
        ensures
            final(self).wf(),
            old(self).deadline_added(&*final(self), deadline, w),
            match displaced {
                Some(v) => old(self).waiters().contains_key(deadline) && v == old(
                    self,
                ).waiters()[deadline],
                None => !old(self).waiters().contains_key(deadline),
            },
    {
        let ghost old_p = self.deadlines@;
        let mut p: usize = 0;
        while p < self.deadlines.len() && self.deadlines[p] <= deadline
            invariant
                self.deadlines@ == old_p,
                sorted(old_p),
                0 <= p <= old_p.len(),
                forall|i: int| 0 <= i < p ==> old_p[i] <= deadline,
            decreases old_p.len() - p,
        {
            p = p + 1;
        }
        self.deadlines.insert(p, deadline);
        proof {
            let s = self.deadlines@;
            assert(s == old_p.insert(p as int, deadline));
            assert forall|i: int, j: int| 0 <= i <= j < s.len() implies s[i] <= s[j] by {
                if j < p {
                } else if j == p {
                    if i < p {
                        assert(old_p[i] <= deadline);
                    }
                } else {
                    assert(s[j] == old_p[j - 1]);
                    if p < old_p.len() {
                        assert(old_p[p as int] > deadline);
                        assert(old_p[p as int] <= old_p[j - 1]);
                    }
                    if i < p {
                        assert(old_p[i] <= old_p[j - 1]);
                    } else if i > p {
                        assert(s[i] == old_p[i - 1]);
                    }
                }
            }
            assert forall|k: u64| old_p.contains(k) implies s.contains(k) by {
                let i = choose|i: int| 0 <= i < old_p.len() && old_p[i] == k;
                if i < p {
                    assert(s[i] == k);
                } else {
                    assert(s[i + 1] == k);
                }
            }
            assert(s[p as int] == deadline);
        }
        let displaced = self.database.insert(deadline, w);
        assert(self.pending() == old(self).pending().insert(p as int, deadline));
        displaced
    }

    /// Wakes every waiter whose deadline is before the logical time: removes those
    /// deadlines from the queue and returns their waiters in ascending order of deadline.
    pub fn process_deadlines(&mut self) -> (fired: Vec<W>)
        requires
            old(self).wf(),
        ensures
            final(self).wf(),
            old(self).expired(&*final(self), fired@),
    {
        let ghost old_p = self.deadlines@;
        let ghost old_w = self.database@;
        let t = self.logical_time;
        let mut fired: Vec<W> = Vec::new();
        let ghost mut ks: Seq<u64> = Seq::empty();
        let ghost mut j: int = 0;
        while self.deadlines.len() > 0 && self.deadlines[0] < t
            invariant
                self.logical_time == t,
                self.id == old(self).id,
                self.master == old(self).master,
                self.drift == old(self).drift,
                self.uncertainty == old(self).uncertainty,
                self.sync_freq == old(self).sync_freq,
                self.counter == old(self).counter,
                sorted(old_p),
                forall|k: u64| #[trigger] old_w.contains_key(k) ==> old_p.contains(k),
                0 <= j <= old_p.len(),
                self.deadlines@ == old_p.skip(j),
                forall|i: int| 0 <= i < j ==> old_p[i] < t,
                self.database@ == old_w.remove_keys(prefix_set(old_p, j)),
                strictly_increasing(ks),
                ks.to_set() == old_w.dom().intersect(prefix_set(old_p, j)),
                forall|i: int| 0 <= i < ks.len() ==> j > 0 && ks[i] <= old_p[j - 1],
                fired@.len() == ks.len(),
                forall|i: int| 0 <= i < ks.len() ==> fired@[i] == old_w[#[trigger] ks[i]],
            decreases self.deadlines.len(),
        {
            let d = self.deadlines.remove(0);
            assert(d == old_p[j]);
            let ghost ks0 = ks;
            match self.database.remove(&d) {
                Some(w) => {
                    proof {
                        assert(!prefix_set(old_p, j).contains(d));
                        assert forall|i: int| 0 <= i < ks0.len() implies ks0[i] < d by {
                            assert(ks0.to_set().contains(ks0[i]));
                            let m = choose|m: int| 0 <= m < j && old_p[m] == ks0[i];
                            assert(old_p[m] <= old_p[j]);
                            if old_p[m] == d {
                                assert(prefix_set(old_p, j).contains(d));
                            }
                        }
                        ks = ks0.push(d);
                        assert(ks.to_set() =~= ks0.to_set().insert(d)) by {
                            broadcast use vstd::seq_lib::group_seq_properties;
                        }
                    }
                    fired.push(w);
                },
                None => {},
            }
            proof {
                assert(prefix_set(old_p, j + 1) =~= prefix_set(old_p, j).insert(d));
                assert(self.database@ =~= old_w.remove_keys(prefix_set(old_p, j + 1)));
                assert(ks.to_set() =~= old_w.dom().intersect(prefix_set(old_p, j + 1)));
                assert(self.deadlines@ =~= old_p.skip(j + 1));
                assert forall|i: int| 0 <= i < ks.len() implies ks[i] <= old_p[j] by {
                    if i < ks0.len() {
                        assert(ks0[i] <= old_p[j - 1]);
                        assert(old_p[j - 1] <= old_p[j]);
                    }
                }
                j = j + 1;
            }
        }
        proof {
            let n = old_p.len() - self.deadlines@.len();
            assert(n == j);
            assert forall|i: int| 0 <= i < self.deadlines@.len() implies self.deadlines@[i] >= t by {
                assert(self.deadlines@[0] >= t);
                assert(old_p[j] <= old_p[j + i]);
            }
            assert(old_w.dom().filter(|k: u64| k < t) =~= old_w.dom().intersect(prefix_set(old_p, j))) by {
                assert forall|k: u64| #[trigger] old_w.dom().contains(k) && k < t implies prefix_set(old_p, j).contains(k) by {
                    assert(old_w.contains_key(k));
                    let i = choose|i: int| 0 <= i < old_p.len() && old_p[i] == k;
                    if i >= j {
                        assert(self.deadlines@[i - j] == k);
                    }
                }
            }
            assert(self.database@ =~= old_w.filter_keys(|d: u64| d >= t)) by {
                assert forall|k: u64| prefix_set(old_p, j).contains(k) implies k < t by {
                    let i = choose|i: int| 0 <= i < j && old_p[i] == k;
                }
                assert forall|k: u64| old_w.contains_key(k) && k >= t implies !prefix_set(old_p, j).contains(k) by {
                    if prefix_set(old_p, j).contains(k) {
                        let i = choose|i: int| 0 <= i < j && old_p[i] == k;
                    }
                }
            }
            assert(fired_in_order(fired@, old_w, t));
            assert forall|k: u64| #[trigger] self.database@.contains_key(k) implies self.deadlines@.contains(k) by {
                assert(old_w.contains_key(k));
                let i = choose|i: int| 0 <= i < old_p.len() && old_p[i] == k;
                if i < j {
                    assert(prefix_set(old_p, j).contains(k));
                }
                assert(self.deadlines@[i - j] == k);
            }
        }
        fired
    }

    /// Advances the clock by one tick.  The logical time moves one millisecond plus the
    /// drift when `fast` holds, one millisecond minus the drift (saturating at zero)
    /// otherwise; the waiters of passed deadlines are woken; and once the tick counter
    /// reaches the synchronization frequency it restarts from zero and a
    /// resynchronization is requested.
    pub fn tick(&mut self, fast: bool) -> (out: TickOutcome<W>)
        requires
            old(self).wf(),
            old(self).time() + advance(fast, old(self).drift()) <= u64::MAX,
        ensures
            final(self).wf(),
            old(self).ticked(&*final(self), fast, out.fired@, out.resync),
    {
        let step: u64 = if fast {
            TICK_NANOS + self.drift
        } else {
            TICK_NANOS.saturating_sub(self.drift)
        };
        self.logical_time = self.logical_time + step;
        let fired = self.process_deadlines();
        let count: u32 = self.counter + 1;
        let resync = count >= self.sync_freq;
        self.counter = if resync { 0 } else { count };
        TickOutcome { fired, resync }
    }

    /// Advances the clock by one tick in a direction drawn at random from `rng`: fast
    /// and slow are equally likely.
    pub fn tick_with(&mut self, rng: &mut StdRng) -> (out: TickOutcome<W>)
        requires
            old(self).wf(),
            old(self).time() + TICK_NANOS + old(self).drift() <= u64::MAX,
        ensures
            final(self).wf(),
            exists|fast: bool| old(self).ticked(&*final(self), fast, out.fired@, out.resync),
    {
        let fast = flip_coin(rng);
        let out = self.tick(fast);
        assert(old(self).ticked(&*self, fast, out.fired@, out.resync));
        out
    }
}

/// A tick never moves the logical time backwards: the drift of a slow tick is at most
/// the tick itself.
pub proof fn tick_never_moves_time_back<W>(
    c: ClockState<W>,
    next: ClockState<W>,
    fast: bool,
    fired: Seq<W>,
    resync: bool,
)
    requires
        c.ticked(&next, fast, fired, resync),
    ensures
        next.time() >= c.time(),
{
}

/// After a tick no queued deadline lies before the logical time, and no waiter of a
/// passed deadline is still registered.
pub proof fn tick_leaves_nothing_overdue<W>(
    c: ClockState<W>,
    next: ClockState<W>,
    fast: bool,
    fired: Seq<W>,
    resync: bool,
)
    requires
        c.ticked(&next, fast, fired, resync),
    ensures
        forall|i: int| 0 <= i < next.pending().len() ==> next.pending()[i] >= next.time(),
        forall|d: u64| #[trigger] next.waiters().contains_key(d) ==> d >= next.time(),
{
}

/// Between two resynchronizations each tick adds exactly one drift to the uncertainty;
/// the tick that requests a resynchronization brings it back to the base uncertainty.
pub proof fn tick_uncertainty_growth<W>(
    c: ClockState<W>,
    next: ClockState<W>,
    fast: bool,
    fired: Seq<W>,
    resync: bool,
)
    requires
        c.ticked(&next, fast, fired, resync),
    ensures
        !resync ==> next.uncertainty_now() == c.uncertainty_now() + c.drift(),
        resync ==> next.uncertainty_now() == c.base_uncertainty(),
{
    assert((c.counter() + 1) * c.drift() == c.counter() * c.drift() + c.drift()) by (nonlinear_arith);
}

/// A resynchronization takes the master's time and leaves no uncertainty.
pub proof fn resync_clears_uncertainty<W>(c: ClockState<W>, next: ClockState<W>, real_time: u64)
    requires
        c.resynced_to(&next, real_time),
    ensures
        next.time() == real_time,
        next.uncertainty_now() == 0,
{
}

/// A tick asks for a resynchronization exactly when the tick counter reaches the
/// synchronization frequency, and leaves the counter below it (or at zero).
pub proof fn tick_counter_stays_below_sync_freq<W>(
    c: ClockState<W>,
    next: ClockState<W>,
    fast: bool,
    fired: Seq<W>,
    resync: bool,
)
    requires
        c.ticked(&next, fast, fired, resync),
    ensures
        next.counter() == 0 || next.counter() < next.sync_freq(),
        resync <==> c.counter() + 1 >= c.sync_freq(),
        resync ==> next.counter() == 0,
{
}

/// A waiter queued for a deadline is woken by the first expiry after the logical time
/// has passed that deadline.
pub proof fn added_deadline_fires_once_passed<W>(
    c: ClockState<W>,
    added: ClockState<W>,
    expired: ClockState<W>,
    deadline: u64,
    w: W,
    fired: Seq<W>,
)
    requires
        c.deadline_added(&added, deadline, w),
        added.expired(&expired, fired),
        deadline < added.time(),
    ensures
        exists|i: int| 0 <= i < fired.len() && fired[i] == w,
        !expired.waiters().contains_key(deadline),
{
    let t = added.time();
    let m = added.waiters();
    let ks = choose|ks: Seq<u64>|
        {
            &&& strictly_increasing(ks)
            &&& ks.to_set() == m.dom().filter(|k: u64| k < t)
            &&& fired.len() == ks.len()
            &&& forall|i: int| 0 <= i < ks.len() ==> fired[i] == m[#[trigger] ks[i]]
        };
    assert(m.dom().filter(|k: u64| k < t).contains(deadline));
    assert(ks.to_set().contains(deadline));
    let i = choose|i: int| 0 <= i < ks.len() && ks[i] == deadline;
    assert(fired[i] == w);
}

/// `w` is the waiter that `m` registers for some deadline before `t`.
pub open spec fn waits_for_passed<W>(m: Map<u64, W>, t: u64, w: W) -> bool {
    exists|d: u64| #[trigger] m.contains_key(d) && d < t && m[d] == w
}

/// A tick wakes only waiters whose deadline the new logical time has passed.
pub proof fn tick_wakes_only_passed_deadlines<W>(
    c: ClockState<W>,
    next: ClockState<W>,
    fast: bool,
    fired: Seq<W>,
    resync: bool,
)
    requires
        c.ticked(&next, fast, fired, resync),
    ensures
        forall|i: int| 0 <= i < fired.len() ==> waits_for_passed(c.waiters(), next.time(), #[trigger] fired[i]),
{
    let t = next.time();
    let m = c.waiters();
    let ks = choose|ks: Seq<u64>|
        {
            &&& strictly_increasing(ks)
            &&& ks.to_set() == m.dom().filter(|k: u64| k < t)
            &&& fired.len() == ks.len()
            &&& forall|i: int| 0 <= i < ks.len() ==> fired[i] == m[#[trigger] ks[i]]
        };
    assert forall|i: int| 0 <= i < fired.len() implies waits_for_passed(m, t, #[trigger] fired[i]) by {
        assert(ks.to_set().contains(ks[i]));
        assert(fired[i] == m[ks[i]]);
        assert(m.contains_key(ks[i]));
    }
}

/// Waking the waiters of passed deadlines twice at the same logical time wakes nobody
/// the second time: every waiter is woken once.
pub proof fn expiry_wakes_each_waiter_once<W>(
    c: ClockState<W>,
    once: ClockState<W>,
    twice: ClockState<W>,
    fired_once: Seq<W>,
    fired_twice: Seq<W>,
)
    requires
        c.expired(&once, fired_once),
        once.expired(&twice, fired_twice),
    ensures
        fired_twice.len() == 0,
        twice.pending() == once.pending(),
        twice.waiters() == once.waiters(),
{
    let t = once.time();
    let m = once.waiters();
    let ks = choose|ks: Seq<u64>|
        {
            &&& strictly_increasing(ks)
            &&& ks.to_set() == m.dom().filter(|k: u64| k < t)
            &&& fired_twice.len() == ks.len()
            &&& forall|i: int| 0 <= i < ks.len() ==> fired_twice[i] == m[#[trigger] ks[i]]
        };
    assert(m.dom().filter(|k: u64| k < t) =~= Set::empty());
    if ks.len() > 0 {
        assert(ks.to_set().contains(ks[0]));
    }
    assert(twice.waiters() =~= once.waiters());
    let k = once.pending().len() - twice.pending().len();
    if k > 0 {
        assert(once.pending()[0] < t);
        assert(once.pending()[0] >= t);
    }
    assert(twice.pending() =~= once.pending());
}

/// The master's time corrected by the one-way delay of the request, estimated as half
/// the round trip from `sent` to `received`.
pub fn corrected_master_time(master_time: u64, sent: u64, received: u64) -> (t: u64)
    requires
        sent <= received,
        master_time + (received - sent) / 2 <= u64::MAX,
    ensures
        t == master_time + (received - sent) / 2,
{
    let round_trip = received - sent;
    master_time + round_trip / 2
}

} // verus!
