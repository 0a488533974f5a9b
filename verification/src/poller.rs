//! The cancellable periodic position sampler.
//!
//! While playback runs, a timer samples the pipeline position at a fixed
//! interval.  The poller here owns the arming decision: `start` always
//! cancels the previous arming before installing a new one, so at most one
//! sampling is ever active, and `stop` is idempotent.  Each arming is
//! identified by a fresh epoch; a timer callback presents its epoch as a
//! ticket, and ticks whose ticket is not the current epoch are dead and
//! must be ignored.  That makes the no-double-arm invariant structural:
//! even if a superseded timer still fires, its samples are rejected.

use vstd::prelude::*;

verus! {

/// The poller as the specifications see it.
pub ghost struct PollerModel {
    /// Whether a periodic sampling is currently armed.
    pub active: bool,
    /// Identifies the most recent arming; only ticks carrying this epoch
    /// are accepted, and only while `active`.
    pub epoch: nat,
    /// The sampling interval, in milliseconds, of the most recent arming.
    pub interval_ms: u64,
}

/// A poller that has never been armed.
pub open spec fn poller_init() -> PollerModel {
    PollerModel { active: false, epoch: 0, interval_ms: 0 }
}

/// Arming: any previous arming is dead (its epoch is superseded) and
/// exactly one sampling is active afterwards.
pub open spec fn poller_start_step(p: PollerModel, interval_ms: u64) -> PollerModel {
    PollerModel { active: true, epoch: p.epoch + 1, interval_ms }
}

/// Cancelling: idempotent, and it never invalidates the epoch counter.
pub open spec fn poller_stop_step(p: PollerModel) -> PollerModel {
    PollerModel { active: false, ..p }
}

/// Whether a tick carrying `ticket` belongs to the currently armed
/// sampling.
pub open spec fn poller_accepts(p: PollerModel, ticket: nat) -> bool {
    p.active && ticket == p.epoch
}

/// The periodic sampler.  Holds no timer itself: the surrounding event
/// loop arms a real timer whenever `start` hands out a new epoch, and
/// checks every tick against `accepts`.
pub struct PositionPoller {
    active: bool,
    epoch: u64,
    interval_ms: u64,
}

impl View for PositionPoller {
    type V = PollerModel;

    closed spec fn view(&self) -> PollerModel {
        PollerModel { active: self.active, epoch: self.epoch as nat, interval_ms: self.interval_ms }
    }
}

impl PositionPoller {
    /// A poller that has never been armed.
    pub fn new() -> (p: PositionPoller)
        ensures
            p@ == poller_init(),
    {
        PositionPoller { active: false, epoch: 0, interval_ms: 0 }
    }

    /// Arm periodic sampling at `interval_ms`.  Any previous arming is
    /// cancelled first, inside this call, before the new epoch is handed
    /// out: callers cannot double-arm.  Returns the ticket that the new
    /// timer's ticks must carry.
    pub fn start(&mut self, interval_ms: u64) -> (ticket: u64)
        requires
            old(self)@.epoch < u64::MAX as nat,
        ensures
            final(self)@ == poller_start_step(old(self)@, interval_ms),
            ticket as nat == final(self)@.epoch,
    {
        self.stop();
        self.epoch = self.epoch + 1;
        self.active = true;
        self.interval_ms = interval_ms;
        self.epoch
    }

    /// Cancel the current sampling.  Calling it while nothing is armed is
    /// a no-op, never an error.
    pub fn stop(&mut self)
        ensures
            final(self)@ == poller_stop_step(old(self)@),
    {
        self.active = false;
    }

    /// Whether a sampling is currently armed.
    pub fn is_active(&self) -> (a: bool)
        ensures
            a == self@.active,
    {
        self.active
    }

    /// The ticket of the current arming, or `None` when nothing is armed.
    pub fn current_ticket(&self) -> (t: Option<u64>)
        ensures
            t matches Some(k) ==> self@.active && k as nat == self@.epoch,
            t is Some <==> self@.active,
    {
        if self.active {
            Some(self.epoch)
        } else {
            None
        }
    }

    /// Whether a tick carrying `ticket` belongs to the current arming.
    pub fn accepts(&self, ticket: u64) -> (a: bool)
        ensures
            a == poller_accepts(self@, ticket as nat),
    {
        self.active && ticket == self.epoch
    }
}

/// Arming twice in a row leaves exactly one live sampling: only ticks of
/// the second arming are accepted, and in particular every tick of the
/// first arming is rejected, so no two timers can feed the controller
/// concurrently.
pub proof fn lemma_no_duplicate_sampling(p: PollerModel, i1: u64, i2: u64)
    ensures
        ({
            let p1 = poller_start_step(p, i1);
            let p2 = poller_start_step(p1, i2);
            &&& poller_accepts(p2, p2.epoch)
            &&& !poller_accepts(p2, p1.epoch)
            &&& forall|t: nat| poller_accepts(p2, t) ==> t == p2.epoch
        }),
{
}

/// Stopping is idempotent: a second `stop` changes nothing.
pub proof fn lemma_stop_idempotent(p: PollerModel)
    ensures
        poller_stop_step(poller_stop_step(p)) == poller_stop_step(p),
{
}

} // verus!
