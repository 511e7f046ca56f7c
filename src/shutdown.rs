//! Graceful shutdown: stop accepting, drain in-flight work, then cancel what
//! is left once the drain deadline has passed.
use vstd::prelude::*;

verus! {

/// How long in-flight work may take to finish once shutdown begins.
pub const DRAIN_DEADLINE_SECS: u64 = 30;

#[derive(Debug, Clone, Copy, PartialEq, Eq, Structural)]
pub enum ShutdownPhase {
    Running,
    Draining,
    Terminated,
}

/// The registry of in-flight tasks and the shutdown state, shared by the
/// accept loop and every connection task.
pub struct ShutdownCoordinator {
    phase: ShutdownPhase,
    active: u64,
    drain_started: u64,
    deadline: u64,
    forced: u64,
}

pub ghost struct ShutdownView {
    pub phase: ShutdownPhase,
    /// Tasks registered and not yet done.
    pub active: nat,
    /// When draining began, in seconds.
    pub drain_started: nat,
    /// How long draining may last, in seconds.
    pub deadline: nat,
    /// Tasks cancelled when the deadline passed.
    pub forced: nat,
}

impl View for ShutdownCoordinator {
    type V = ShutdownView;

    closed spec fn view(&self) -> ShutdownView {
        ShutdownView {
            phase: self.phase,
            active: self.active as nat,
            drain_started: self.drain_started as nat,
            deadline: self.deadline as nat,
            forced: self.forced as nat,
        }
    }
}

/// Once terminated, no task is left.
pub open spec fn shutdown_wf(v: ShutdownView) -> bool {
    v.phase == ShutdownPhase::Terminated ==> v.active == 0
}

/// The state after shutdown is asked for at time `now`.
pub open spec fn after_trigger(v: ShutdownView, now: nat) -> ShutdownView {
    if v.phase == ShutdownPhase::Running {
        ShutdownView {
            phase: if v.active == 0 {
                ShutdownPhase::Terminated
            } else {
                ShutdownPhase::Draining
            },
            drain_started: now,
            ..v
        }
    } else {
        v
    }
}

/// Whether the drain deadline has passed at time `now`.
pub open spec fn drain_due(v: ShutdownView, now: nat) -> bool {
    v.phase == ShutdownPhase::Draining && now >= v.drain_started + v.deadline
}

/// The state after the clock reads `now`.
pub open spec fn after_tick(v: ShutdownView, now: nat) -> ShutdownView {
    if drain_due(v, now) {
        ShutdownView { phase: ShutdownPhase::Terminated, active: 0, forced: v.active, ..v }
    } else {
        v
    }
}

/// The state after one registered task finishes.
pub open spec fn after_deregister(v: ShutdownView) -> ShutdownView {
    let active = (v.active - 1) as nat;
    ShutdownView {
        active,
        phase: if v.phase == ShutdownPhase::Draining && active == 0 {
            ShutdownPhase::Terminated
        } else {
            v.phase
        },
        ..v
    }
}

/// The state after `k` registered tasks finish, one after the other.
pub open spec fn after_deregisters(v: ShutdownView, k: nat) -> ShutdownView
    decreases k,
{
    if k == 0 {
        v
    } else {
        after_deregister(after_deregisters(v, (k - 1) as nat))
    }
}

impl ShutdownCoordinator {
    /// A running coordinator with no task, which drains for at most
    /// `deadline_secs` seconds.
    pub fn new(deadline_secs: u64) -> (r: ShutdownCoordinator)
        ensures
            r@ == (ShutdownView {
                phase: ShutdownPhase::Running,
                active: 0,
                drain_started: 0,
                deadline: deadline_secs as nat,
                forced: 0,
            }),
            shutdown_wf(r@),
    {
        ShutdownCoordinator {
            phase: ShutdownPhase::Running,
            active: 0,
            drain_started: 0,
            deadline: deadline_secs,
            forced: 0,
        }
    }

    pub fn phase(&self) -> (r: ShutdownPhase)
        ensures
            r == self@.phase,
    {
        self.phase
    }

    pub fn active(&self) -> (r: u64)
        ensures
            r == self@.active,
    {
        self.active
    }

    pub fn forced(&self) -> (r: u64)
        ensures
            r == self@.forced,
    {
        self.forced
    }

    /// The listener accepts connections only while running.
    pub fn accepts_connections(&self) -> (r: bool)
        ensures
            r == (self@.phase == ShutdownPhase::Running),
    {
        self.phase == ShutdownPhase::Running
    }

    /// Registers a new task. Refused once terminated (and when the count
    /// cannot grow).
    pub fn register(&mut self) -> (r: bool)
        requires
            shutdown_wf(old(self)@),
        ensures
            shutdown_wf(final(self)@),
            r == (old(self)@.phase != ShutdownPhase::Terminated && old(self)@.active < u64::MAX),
            r ==> final(self)@ == (ShutdownView { active: old(self)@.active + 1, ..old(self)@ }),
            !r ==> final(self)@ == old(self)@,
    {
        if self.phase != ShutdownPhase::Terminated && self.active < u64::MAX {
            self.active = self.active + 1;
            true
        } else {
            false
        }
    }

    /// A registered task has finished. Draining ends when the last one does.
    pub fn deregister(&mut self)
        requires
            shutdown_wf(old(self)@),
            old(self)@.active > 0,
        ensures
            shutdown_wf(final(self)@),
            final(self)@ == after_deregister(old(self)@),
    {
        self.active = self.active - 1;
        if self.phase == ShutdownPhase::Draining && self.active == 0 {
            self.phase = ShutdownPhase::Terminated;
        }
    }

    /// Shutdown is asked for at time `now` (seconds). A running coordinator
    /// starts draining, and terminates at once when no task is in flight.
    pub fn trigger(&mut self, now: u64)
        requires
            shutdown_wf(old(self)@),
        ensures
            shutdown_wf(final(self)@),
            final(self)@ == after_trigger(old(self)@, now as nat),
    {
        if self.phase == ShutdownPhase::Running {
            self.drain_started = now;
            if self.active == 0 {
                self.phase = ShutdownPhase::Terminated;
            } else {
                self.phase = ShutdownPhase::Draining;
            }
        }
    }

    /// The clock reads `now` (seconds). A draining coordinator whose deadline
    /// has passed cancels every task left, terminates and returns how many it
    /// cancelled; before the deadline nothing changes and it returns 0.
    pub fn tick(&mut self, now: u64) -> (r: u64)
        requires
            shutdown_wf(old(self)@),
        ensures
            shutdown_wf(final(self)@),
            final(self)@ == after_tick(old(self)@, now as nat),
            r == (if drain_due(old(self)@, now as nat) {
                old(self)@.active
            } else {
                0
            }),
    {
        if self.phase == ShutdownPhase::Draining && now >= self.drain_started
            && now - self.drain_started >= self.deadline {
            let n = self.active;
            self.forced = n;
            self.active = 0;
            self.phase = ShutdownPhase::Terminated;
            n
        } else {
            0
        }
    }
}

proof fn lemma_deregisters_count_down(v: ShutdownView, k: nat)
    requires
        v.phase == ShutdownPhase::Draining,
        0 < v.active,
        k <= v.active,
    ensures
        after_deregisters(v, k).active == v.active - k,
        after_deregisters(v, k).drain_started == v.drain_started,
        after_deregisters(v, k).deadline == v.deadline,
        after_deregisters(v, k).forced == v.forced,
        after_deregisters(v, k).phase == (if k == v.active {
            ShutdownPhase::Terminated
        } else {
            ShutdownPhase::Draining
        }),
    decreases k,
{
    if k > 0 {
        lemma_deregisters_count_down(v, (k - 1) as nat);
    }
}

/// Shutdown with tasks in flight. Once asked for at `start`, the coordinator
/// drains: it stops accepting and does not terminate before the deadline
/// while any task is left; when the last task finishes it terminates with
/// nothing cancelled; otherwise, as soon as the clock reaches the deadline, it
/// terminates and cancels exactly the tasks that were left.
pub proof fn lemma_drain_window(v: ShutdownView, start: nat, finished: nat, now: nat)
    requires
        shutdown_wf(v),
        v.phase == ShutdownPhase::Running,
        v.forced == 0,
        finished <= v.active,
    ensures
        ({
            let d = after_trigger(v, start);
            let left = after_deregisters(d, finished);
            &&& v.active > 0 ==> d.phase == ShutdownPhase::Draining
            &&& v.active == 0 ==> d.phase == ShutdownPhase::Terminated
            &&& finished == v.active ==> left.phase == ShutdownPhase::Terminated && left.forced
                == 0
            &&& finished < v.active && now < start + v.deadline ==> after_tick(left, now) == left
                && left.phase == ShutdownPhase::Draining
            &&& finished < v.active && now >= start + v.deadline ==> after_tick(left, now).phase
                == ShutdownPhase::Terminated && after_tick(left, now).forced == v.active - finished
                && after_tick(left, now).active == 0
        }),
{
    let d = after_trigger(v, start);
    if v.active > 0 {
        lemma_deregisters_count_down(d, finished);
    }
}

} // verus!
