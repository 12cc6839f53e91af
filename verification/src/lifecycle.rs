//! Per-task container lifecycle: the state progression from unconfigured
//! to ready, the reaction to checker events, and the bounded retry policy
//! with increasing backoff.

use vstd::prelude::*;
use crate::checker::CheckerEvent;

verus! {

/// Lifecycle state of one managed task, owned by its manager; read-only
/// snapshots are exposed outward.
#[derive(Clone, Copy, PartialEq, Eq, Structural, Debug)]
pub enum LifecycleState {
    NotConfigured,
    Configuring,
    Starting,
    /// Bootstrap in progress, in percent.
    Running(u8),
    Ready,
    Stopping,
    Stopped,
    Failed,
}

/// A progress payload never exceeds one hundred.
pub open spec fn state_wf(s: LifecycleState) -> bool {
    match s {
        LifecycleState::Running(p) => p <= 100,
        _ => true,
    }
}

/// What the caller must do after a manager step.
#[derive(Clone, Copy, PartialEq, Eq, Structural, Debug)]
pub enum ManagerDirective {
    /// Ask the container runtime to create and start the container.
    Start,
    /// Ask the runtime to stop the container.
    Stop,
    /// Restart the container after the given delay, in milliseconds.
    RestartAfter(u64),
    /// The retry cap is exhausted: report the fatal condition upward.
    EscalateRetryExhausted,
    /// Nothing to do.
    Idle,
}

/// Two raised to `n`, capped at sixteen doublings.
pub open spec fn spec_pow2(n: int) -> int
    decreases n,
{
    if n <= 0 {
        1
    } else {
        2 * spec_pow2(n - 1)
    }
}

/// The restart delay after `n` failures: the base doubled per failure,
/// with the doubling capped so the delay stays bounded.
pub open spec fn spec_backoff(base: u32, n: u8) -> int {
    base * spec_pow2(if n > 16 {
        16int
    } else {
        n as int
    })
}

proof fn lemma_pow2_pos(n: int)
    ensures
        spec_pow2(n) >= 1,
    decreases n,
{
    if n > 0 {
        lemma_pow2_pos(n - 1);
    }
}

proof fn lemma_pow2_le(a: int, b: int)
    requires
        a <= b,
    ensures
        spec_pow2(a) <= spec_pow2(b),
    decreases b,
{
    if a < b && b > 0 {
        lemma_pow2_le(a, b - 1);
        lemma_pow2_pos(b - 1);
    }
}

/// Reconfiguration step of the manager: what the new should-run verdict
/// does to the lifecycle state, and which runtime call it demands.  A
/// repeated identical verdict never demands a second start.
pub open spec fn spec_reconfigure_step(st: LifecycleState, should_run: bool) -> (
    LifecycleState,
    ManagerDirective,
) {
    if should_run {
        if st == LifecycleState::NotConfigured {
            (LifecycleState::Configuring, ManagerDirective::Start)
        } else {
            (st, ManagerDirective::Idle)
        }
    } else {
        match st {
            LifecycleState::NotConfigured => (st, ManagerDirective::Idle),
            LifecycleState::Stopped => (st, ManagerDirective::Idle),
            LifecycleState::Stopping => (st, ManagerDirective::Idle),
            _ => (LifecycleState::Stopping, ManagerDirective::Stop),
        }
    }
}

/// Checker-event step of the manager: progress and readiness drive the
/// running state, a failure drives the task to `Failed` and either a
/// bounded restart or, at the cap, the fatal escalation.
pub open spec fn spec_event_step(
    st: LifecycleState,
    retries: u8,
    cap: u8,
    base: u32,
    ev: CheckerEvent,
) -> (LifecycleState, u8, ManagerDirective) {
    match ev {
        CheckerEvent::Progress(p) => {
            if (st is Starting || st is Running) && p <= 100 {
                (LifecycleState::Running(p), retries, ManagerDirective::Idle)
            } else {
                (st, retries, ManagerDirective::Idle)
            }
        },
        CheckerEvent::Ready => {
            if st is Starting || st is Running {
                (LifecycleState::Ready, retries, ManagerDirective::Idle)
            } else {
                (st, retries, ManagerDirective::Idle)
            }
        },
        CheckerEvent::Failed(_) => {
            if st is Stopped || st is Stopping || st is NotConfigured {
                (st, retries, ManagerDirective::Idle)
            } else if retries + 1 < cap {
                (
                    LifecycleState::Failed,
                    (retries + 1) as u8,
                    ManagerDirective::RestartAfter(spec_backoff(base, (retries + 1) as u8) as u64),
                )
            } else {
                (
                    LifecycleState::Failed,
                    if retries < cap {
                        (retries + 1) as u8
                    } else {
                        retries
                    },
                    ManagerDirective::EscalateRetryExhausted,
                )
            }
        },
    }
}

/// Lifecycle manager of one managed task.
pub struct ContainerManager {
    pub state: LifecycleState,
    pub retries: u8,
    pub retry_cap: u8,
    pub backoff_base_ms: u32,
}

impl ContainerManager {
    pub open spec fn wf(&self) -> bool {
        &&& state_wf(self.state)
        &&& self.retries <= self.retry_cap
    }

    pub fn new(retry_cap: u8, backoff_base_ms: u32) -> (m: ContainerManager)
        ensures
            m.state == LifecycleState::NotConfigured,
            m.retries == 0,
            m.retry_cap == retry_cap,
            m.backoff_base_ms == backoff_base_ms,
            m.wf(),
    {
        ContainerManager {
            state: LifecycleState::NotConfigured,
            retries: 0,
            retry_cap,
            backoff_base_ms,
        }
    }

    /// Applies a fresh should-run verdict.  Idempotent: a second identical
    /// verdict leaves the state alone and never demands a second start.
    pub fn reconfigure_outcome(&mut self, should_run: bool) -> (d: ManagerDirective)
        requires
            old(self).wf(),
        ensures
            (final(self).state, d) == spec_reconfigure_step(old(self).state, should_run),
            final(self).retries == old(self).retries,
            final(self).retry_cap == old(self).retry_cap,
            final(self).backoff_base_ms == old(self).backoff_base_ms,
            final(self).wf(),
    {
        if should_run {
            if self.state == LifecycleState::NotConfigured {
                self.state = LifecycleState::Configuring;
                ManagerDirective::Start
            } else {
                ManagerDirective::Idle
            }
        } else {
            match self.state {
                LifecycleState::NotConfigured => ManagerDirective::Idle,
                LifecycleState::Stopped => ManagerDirective::Idle,
                LifecycleState::Stopping => ManagerDirective::Idle,
                _ => {
                    self.state = LifecycleState::Stopping;
                    ManagerDirective::Stop
                },
            }
        }
    }

    /// Records that the runtime's create-and-start call succeeded.
    pub fn on_started(&mut self)
        requires
            old(self).wf(),
            old(self).state == LifecycleState::Configuring || old(self).state
                == LifecycleState::Failed,
        ensures
            final(self).state == LifecycleState::Starting,
            final(self).retries == old(self).retries,
            final(self).retry_cap == old(self).retry_cap,
            final(self).backoff_base_ms == old(self).backoff_base_ms,
            final(self).wf(),
    {
        self.state = LifecycleState::Starting;
    }

    /// Records that the runtime stopped the container.
    pub fn on_stopped(&mut self)
        requires
            old(self).wf(),
        ensures
            final(self).state == LifecycleState::Stopped,
            final(self).retries == old(self).retries,
            final(self).retry_cap == old(self).retry_cap,
            final(self).backoff_base_ms == old(self).backoff_base_ms,
            final(self).wf(),
    {
        self.state = LifecycleState::Stopped;
    }

    /// Consumes one structured checker event.
    pub fn on_checker_event(&mut self, ev: &CheckerEvent) -> (d: ManagerDirective)
        requires
            old(self).wf(),
        ensures
            (final(self).state, final(self).retries, d) == spec_event_step(
                old(self).state,
                old(self).retries,
                old(self).retry_cap,
                old(self).backoff_base_ms,
                *ev,
            ),
            final(self).retry_cap == old(self).retry_cap,
            final(self).backoff_base_ms == old(self).backoff_base_ms,
            final(self).wf(),
    {
        match ev {
            CheckerEvent::Progress(p) => {
                let running = match self.state {
                    LifecycleState::Starting => true,
                    LifecycleState::Running(_) => true,
                    _ => false,
                };
                if running && *p <= 100 {
                    self.state = LifecycleState::Running(*p);
                }
                ManagerDirective::Idle
            },
            CheckerEvent::Ready => {
                let running = match self.state {
                    LifecycleState::Starting => true,
                    LifecycleState::Running(_) => true,
                    _ => false,
                };
                if running {
                    self.state = LifecycleState::Ready;
                }
                ManagerDirective::Idle
            },
            CheckerEvent::Failed(_) => {
                let absorbed = match self.state {
                    LifecycleState::Stopped => true,
                    LifecycleState::Stopping => true,
                    LifecycleState::NotConfigured => true,
                    _ => false,
                };
                if absorbed {
                    ManagerDirective::Idle
                } else if self.retries < 255 && self.retries + 1 < self.retry_cap {
                    self.state = LifecycleState::Failed;
                    self.retries = self.retries + 1;
                    let delay = backoff_delay(self.backoff_base_ms, self.retries);
                    ManagerDirective::RestartAfter(delay)
                } else {
                    self.state = LifecycleState::Failed;
                    if self.retries < self.retry_cap {
                        self.retries = self.retries + 1;
                    }
                    ManagerDirective::EscalateRetryExhausted
                }
            },
        }
    }

    /// The current state, for read-only snapshots.
    pub fn current_state(&self) -> (r: LifecycleState)
        ensures
            r == self.state,
    {
        self.state
    }
}

/// The restart delay after `n` failures.
pub fn backoff_delay(base: u32, n: u8) -> (r: u64)
    ensures
        r == spec_backoff(base, n),
{
    let k: u8 = if n > 16 {
        16
    } else {
        n
    };
    let mut m: u64 = 1;
    let mut t: u8 = 0;
    while t < k
        invariant
            t <= k <= 16,
            m == spec_pow2(t as int),
            m <= 65536,
        decreases k - t,
    {
        proof {
            lemma_pow2_le(t as int, 15);
            assert(spec_pow2(15) == 32768) by {
                reveal_with_fuel(spec_pow2, 17);
            }
        }
        m = m * 2;
        t += 1;
    }
    proof {
        lemma_pow2_le(k as int, 16);
        assert(spec_pow2(16) == 65536) by {
            reveal_with_fuel(spec_pow2, 17);
        }
        assert((base as u64) * m <= 0xFFFFFFFFu64 * 65536) by (nonlinear_arith)
            requires
                m <= 65536,
                base <= 0xFFFFFFFFu32,
        ;
    }
    (base as u64) * m
}

/// Law: applying the same should-run verdict twice changes nothing the
/// second time and never demands a second start call, so a repeated
/// identical snapshot cannot start the container twice.
pub proof fn lemma_reconfigure_idempotent(st: LifecycleState, should_run: bool)
    ensures
        spec_reconfigure_step(spec_reconfigure_step(st, should_run).0, should_run) == (
            spec_reconfigure_step(st, should_run).0,
            ManagerDirective::Idle,
        ),
{
}

/// Law: the failure count never passes the cap, and a restart is only
/// ever demanded while the count is still below it; at the cap the
/// manager escalates instead of retrying forever.
pub proof fn lemma_retry_bounded(
    st: LifecycleState,
    retries: u8,
    cap: u8,
    base: u32,
    ev: CheckerEvent,
)
    requires
        retries <= cap,
    ensures
        spec_event_step(st, retries, cap, base, ev).1 <= cap,
        spec_event_step(st, retries, cap, base, ev).2 is RestartAfter ==> spec_event_step(
            st,
            retries,
            cap,
            base,
            ev,
        ).1 < cap,
{
}

} // verus!
