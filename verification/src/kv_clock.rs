//! The server's clock: every tick it reads the real time and shifts it by the
//! drift in one direction or the other; its uncertainty is the drift times the
//! number of ticks since the last resynchronization with the leader.

use vstd::prelude::*;
use rand::rngs::StdRng;
use crate::coin::flip_coin;
use crate::util::NodeId;

verus! {

/// Identifier of a clock instance.
pub type ClockId = usize;

/// Errors of the clock.
pub enum ClockError {
    /// The clock cannot order two events.
    Ambig(String),
}

/// The state of a server clock.
pub struct ClockState {
    id: ClockId,
    master: NodeId,
    drift: u64,
    uncertainty: u64,
    sync_freq: u32,
    logical_time: u64,
    counter: u32,
}

impl ClockState {
    /// The identifier of this clock.
    pub closed spec fn id(&self) -> ClockId {
        self.id
    }

    /// The node that owns this clock.
    pub closed spec fn master(&self) -> NodeId {
        self.master
    }

    /// The drift per tick, in nanoseconds.
    pub closed spec fn drift(&self) -> u64 {
        self.drift
    }

    /// The configured uncertainty bound, in nanoseconds.
    pub closed spec fn uncertainty_bound(&self) -> u64 {
        self.uncertainty
    }

    /// The configured number of ticks between resynchronizations.
    pub closed spec fn sync_freq(&self) -> u32 {
        self.sync_freq
    }

    /// The logical time, in nanoseconds since the epoch.
    pub closed spec fn time(&self) -> u64 {
        self.logical_time
    }

    /// Ticks since the last resynchronization.
    pub closed spec fn counter(&self) -> u32 {
        self.counter
    }

    /// The uncertainty: drift times ticks since the last resynchronization.
    pub open spec fn uncertainty_now(&self) -> int {
        self.counter() * self.drift()
    }

    /// The settings of the clock are those of `other`.
    pub open spec fn same_settings(&self, other: &Self) -> bool {
        &&& self.id() == other.id()
        &&& self.master() == other.master()
        &&& self.drift() == other.drift()
        &&& self.uncertainty_bound() == other.uncertainty_bound()
        &&& self.sync_freq() == other.sync_freq()
    }

    /// `next` is `self` after a tick at real time `now` in direction `fast`.
    pub open spec fn ticked(&self, next: &Self, now: u64, fast: bool) -> bool {
        &&& next.same_settings(self)
        &&& next.counter() == self.counter() + 1
        &&& next.time() == (if fast {
            now + self.drift()
        } else {
            now - self.drift()
        })
    }

    /// `next` is `self` resynchronized to `real_time`.
    pub open spec fn resynced_to(&self, next: &Self, real_time: u64) -> bool {
        &&& next.same_settings(self)
        &&& next.counter() == 0
        &&& next.time() == real_time
    }

    /// A clock reading `now`, with no tick counted.
    pub fn new(
        id: ClockId,
        master: NodeId,
        drift: u64,
        uncertainty: u64,
        sync_freq: u32,
        now: u64,
    ) -> (c: ClockState)
        ensures
            c.id() == id,
            c.master() == master,
            c.drift() == drift,
            c.uncertainty_bound() == uncertainty,
            c.sync_freq() == sync_freq,
            c.time() == now,
            c.counter() == 0,
    {
        ClockState { id, master, drift, uncertainty, sync_freq, logical_time: now, counter: 0 }
    }

    /// Counts a tick and sets the logical time to the real time `now` plus the drift
    /// when `fast` holds, minus the drift otherwise.
    pub fn tick(&mut self, now: u64, fast: bool)
        requires
            old(self).counter() < u32::MAX,
            fast ==> now + old(self).drift() <= u64::MAX,
            !fast ==> now >= old(self).drift(),
        ensures
            old(self).ticked(&*final(self), now, fast),
    {
        self.counter = self.counter + 1;
        self.logical_time = if fast {
            now + self.drift
        } else {
            now - self.drift
        };
    }

    /// Counts a tick and sets the logical time to the real time `now` shifted by the drift
    /// in a direction drawn at random from `rng`: ahead and behind are equally likely.
    pub fn tick_with(&mut self, now: u64, rng: &mut StdRng)
        requires
            old(self).counter() < u32::MAX,
            now + old(self).drift() <= u64::MAX,
            now >= old(self).drift(),
        ensures
            exists|fast: bool| old(self).ticked(&*final(self), now, fast),
    {
        let fast = flip_coin(rng);
        self.tick(now, fast);
        assert(old(self).ticked(&*self, now, fast));
    }

    /// The logical time.
    pub fn get_time(&self) -> (t: u64)
        ensures
            t == self.time(),
    {
        self.logical_time
    }

    /// The drift per tick, in nanoseconds.
    pub fn get_drift(&self) -> (d: u64)
        ensures
            d == self.drift(),
    {
        self.drift
    }

    /// Ticks since the last resynchronization.
    pub fn get_counter(&self) -> (c: u32)
        ensures
            c == self.counter(),
    {
        self.counter
    }

    /// The uncertainty: drift times ticks since the last resynchronization.
    pub fn get_uncertainty(&self) -> (u: u64)
        requires
            self.uncertainty_now() <= u64::MAX,
        ensures
            u == self.uncertainty_now(),
    {
        self.counter as u64 * self.drift
    }

    /// Sets the logical time to `real_time` and restarts the tick count.
    pub fn resync(&mut self, real_time: u64)
        ensures
            old(self).resynced_to(&*final(self), real_time),
    {
        self.logical_time = real_time;
        self.counter = 0;
    }
}

/// A resynchronized server clock has no uncertainty until its next tick.
pub proof fn resync_clears_uncertainty(c: ClockState, next: ClockState, real_time: u64)
    requires
        c.resynced_to(&next, real_time),
    ensures
        next.uncertainty_now() == 0,
        next.time() == real_time,
{
}

/// Every tick adds one drift to the uncertainty of a server clock.
pub proof fn tick_adds_one_drift(c: ClockState, next: ClockState, now: u64, fast: bool)
    requires
        c.ticked(&next, now, fast),
    ensures
        next.uncertainty_now() == c.uncertainty_now() + c.drift(),
{
    assert((c.counter() + 1) * c.drift() == c.counter() * c.drift() + c.drift()) by (nonlinear_arith);
}

/// A tick puts the logical time within one drift of the real time.
pub proof fn tick_stays_within_drift(c: ClockState, next: ClockState, now: u64, fast: bool)
    requires
        c.ticked(&next, now, fast),
    ensures
        now - c.drift() <= next.time() <= now + c.drift(),
{
}

} // verus!
