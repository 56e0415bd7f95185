//! The asynchronous-to-synchronous adapter.
//!
//! The external service delivers results through callbacks, and only while
//! the caller pumps its event queue. The adapter pumps on a fixed
//! interval, watching a completion token, until the callback has fired or
//! a deadline has passed. Time is modelled in milliseconds from the
//! operation's start; the pump instants are 0, one interval, two
//! intervals, and so on, each taken only while it lies before the
//! deadline.
use vstd::prelude::*;
use crate::service::{CallbackReply, CallbackReplyV, ServiceData, ServiceDataV, spec_fire_time};
use crate::token::CompletionToken;

verus! {

/// One operation class's polling schedule: how long to keep trying and
/// how far apart the pump instants lie.
pub struct PollConfig {
    pub deadline_ms: u64,
    pub interval_ms: u64,
}

impl PollConfig {
    /// A usable schedule: a positive interval, and bounds far beyond any
    /// schedule the bridge uses, so that times never overflow.
    pub open spec fn wf(&self) -> bool {
        1 <= self.interval_ms <= 0x7fffffff && 1 <= self.deadline_ms <= 0x7fffffff
    }

    /// Builds a schedule from its two times.
    pub fn new(deadline_ms: u64, interval_ms: u64) -> (r: PollConfig)
        requires
            1 <= interval_ms <= 0x7fffffff,
            1 <= deadline_ms <= 0x7fffffff,
        ensures
            r.deadline_ms == deadline_ms,
            r.interval_ms == interval_ms,
            r.wf(),
    {
        PollConfig { deadline_ms, interval_ms }
    }
}

/// How one poll loop ended: the callback's result was seen at a pump
/// instant, or the deadline passed first. Either way `elapsed_ms` is the
/// time at which the loop stopped.
pub enum PollOutcome {
    Completed { elapsed_ms: u64 },
    TimedOut { elapsed_ms: u64 },
}

/// The poll loop's behaviour from pump instant `t` on: the first pump
/// instant before the deadline that lies at or after the callback's fire
/// time completes; if the deadline arrives first, the loop times out at
/// the first pump instant at or past the deadline.
pub open spec fn spec_poll_from(cfg: PollConfig, fire_at: Option<u64>, t: u64) -> PollOutcome
    decreases cfg.deadline_ms + cfg.interval_ms - t,
        when cfg.interval_ms >= 1
{
    if t >= cfg.deadline_ms {
        PollOutcome::TimedOut { elapsed_ms: t }
    } else if match fire_at {
        Some(f) => f <= t,
        None => false,
    } {
        PollOutcome::Completed { elapsed_ms: t }
    } else if t + cfg.interval_ms <= u64::MAX {
        spec_poll_from(cfg, fire_at, (t + cfg.interval_ms) as u64)
    } else {
        PollOutcome::TimedOut { elapsed_ms: t }
    }
}

/// The whole poll loop, from the operation's start.
pub open spec fn spec_poll(cfg: PollConfig, fire_at: Option<u64>) -> PollOutcome {
    spec_poll_from(cfg, fire_at, 0)
}

/// Runs the poll loop against a callback that fires at `fire_at`, if
/// ever. Nothing outside the loop's own schedule is consulted: a fire
/// time is seen only at the first pump instant at or after it.
pub fn run_poll(cfg: &PollConfig, fire_at: Option<u64>) -> (r: PollOutcome)
    requires
        cfg.wf(),
    ensures
        r == spec_poll(*cfg, fire_at),
{
    let mut t: u64 = 0;
    loop
        invariant
            cfg.wf(),
            t <= 0xffffffff,
            spec_poll(*cfg, fire_at) == spec_poll_from(*cfg, fire_at, t),
        decreases cfg.deadline_ms + cfg.interval_ms - t,
    {
        if t >= cfg.deadline_ms {
            return PollOutcome::TimedOut { elapsed_ms: t };
        }
        let fired = match fire_at {
            Some(f) => f <= t,
            None => false,
        };
        if fired {
            return PollOutcome::Completed { elapsed_ms: t };
        }
        t = t + cfg.interval_ms;
    }
}

/// A deadline is kept within one interval: against a callback that never
/// fires, the loop times out no sooner than the deadline and strictly
/// less than one interval past it.
pub proof fn lemma_timeout_window(cfg: PollConfig)
    requires
        cfg.wf(),
    ensures
        spec_poll(cfg, None) matches PollOutcome::TimedOut { elapsed_ms } && cfg.deadline_ms
            <= elapsed_ms < cfg.deadline_ms + cfg.interval_ms,
{
    lemma_timeout_window_from(cfg, 0);
}

proof fn lemma_timeout_window_from(cfg: PollConfig, t: u64)
    requires
        cfg.wf(),
        t < cfg.deadline_ms + cfg.interval_ms,
        t <= 0xffffffff,
    ensures
        spec_poll_from(cfg, None, t) matches PollOutcome::TimedOut { elapsed_ms } && cfg.deadline_ms
            <= elapsed_ms < cfg.deadline_ms + cfg.interval_ms,
    decreases cfg.deadline_ms + cfg.interval_ms - t,
{
    if t < cfg.deadline_ms {
        lemma_timeout_window_from(cfg, (t + cfg.interval_ms) as u64);
    }
}

/// A callback that fires only at or after the deadline changes nothing:
/// the loop's outcome is the same as if it had never fired. The late
/// result is simply discarded.
pub proof fn lemma_late_fire_discarded(cfg: PollConfig, f: u64)
    requires
        cfg.wf(),
        f >= cfg.deadline_ms,
    ensures
        spec_poll(cfg, Some(f)) == spec_poll(cfg, None),
{
    lemma_late_fire_from(cfg, f, 0);
}

proof fn lemma_late_fire_from(cfg: PollConfig, f: u64, t: u64)
    requires
        cfg.wf(),
        f >= cfg.deadline_ms,
        t <= 0xffffffff,
    ensures
        spec_poll_from(cfg, Some(f), t) == spec_poll_from(cfg, None, t),
    decreases cfg.deadline_ms + cfg.interval_ms - t,
{
    if t < cfg.deadline_ms {
        lemma_late_fire_from(cfg, f, (t + cfg.interval_ms) as u64);
    }
}

/// A result seen at all is seen promptly: when the loop completes, it
/// does so before the deadline and within one interval of the callback's
/// fire time.
pub proof fn lemma_completion_window(cfg: PollConfig, f: u64)
    requires
        cfg.wf(),
        spec_poll(cfg, Some(f)) is Completed,
    ensures
        spec_poll(cfg, Some(f)) matches PollOutcome::Completed { elapsed_ms } && f <= elapsed_ms
            < cfg.deadline_ms && elapsed_ms < f + cfg.interval_ms,
{
    lemma_completion_window_from(cfg, f, 0);
}

proof fn lemma_completion_window_from(cfg: PollConfig, f: u64, t: u64)
    requires
        cfg.wf(),
        t <= 0xffffffff,
        spec_poll_from(cfg, Some(f), t) is Completed,
        f + cfg.interval_ms > t,
    ensures
        spec_poll_from(cfg, Some(f), t) matches PollOutcome::Completed { elapsed_ms } && f
            <= elapsed_ms < cfg.deadline_ms && elapsed_ms < f + cfg.interval_ms,
    decreases cfg.deadline_ms + cfg.interval_ms - t,
{
    if t < cfg.deadline_ms && !(f <= t) {
        lemma_completion_window_from(cfg, f, (t + cfg.interval_ms) as u64);
    }
}

/// One asynchronous operation's result, as the adapter reports it.
pub enum OpResult {
    Data { data: ServiceData, elapsed_ms: u64 },
    TimedOut { elapsed_ms: u64 },
}

/// The mathematical shape of an `OpResult`.
pub enum OpResultV {
    Data { data: ServiceDataV, elapsed_ms: u64 },
    TimedOut { elapsed_ms: u64 },
}

impl DeepView for OpResult {
    type V = OpResultV;

    open spec fn deep_view(&self) -> OpResultV {
        match self {
            OpResult::Data { data, elapsed_ms } => OpResultV::Data {
                data: data.deep_view(),
                elapsed_ms: *elapsed_ms,
            },
            OpResult::TimedOut { elapsed_ms } => OpResultV::TimedOut { elapsed_ms: *elapsed_ms },
        }
    }
}

/// What awaiting one operation against a given service reply yields.
pub open spec fn spec_await(cfg: PollConfig, reply: CallbackReplyV) -> OpResultV {
    match spec_poll(cfg, spec_fire_time(reply)) {
        PollOutcome::Completed { elapsed_ms } => OpResultV::Data {
            data: reply->Fired_data,
            elapsed_ms,
        },
        PollOutcome::TimedOut { elapsed_ms } => OpResultV::TimedOut { elapsed_ms },
    }
}

/// Awaits one operation: allocates a fresh completion token, lets the
/// reply play out against the poll loop, and reads the token only if it
/// completed in time. A reply that fires after the deadline still lands
/// in the abandoned token — safely, and without being read.
pub fn await_reply(cfg: &PollConfig, reply: CallbackReply) -> (r: OpResult)
    requires
        cfg.wf(),
    ensures
        r.deep_view() == spec_await(*cfg, reply.deep_view()),
{
    let mut token: CompletionToken<ServiceData> = CompletionToken::new();
    match reply {
        CallbackReply::Never => {
            let outcome = run_poll(cfg, None);
            token.abandon();
            match outcome {
                PollOutcome::TimedOut { elapsed_ms } => OpResult::TimedOut { elapsed_ms },
                PollOutcome::Completed { elapsed_ms } => {
                    // A silent callback can never be seen by a pump.
                    proof {
                        lemma_never_completes(*cfg);
                    }
                    OpResult::TimedOut { elapsed_ms }
                },
            }
        },
        CallbackReply::Fired { at_ms, data } => {
            let outcome = run_poll(cfg, Some(at_ms));
            match outcome {
                PollOutcome::Completed { elapsed_ms } => {
                    token.complete(data);
                    match token.payload {
                        Some(d) => OpResult::Data { data: d, elapsed_ms },
                        None => {
                            proof {
                                assert(false);
                            }
                            OpResult::TimedOut { elapsed_ms }
                        },
                    }
                },
                PollOutcome::TimedOut { elapsed_ms } => {
                    // The deadline passed first: the token is abandoned,
                    // and the callback's late write lands in it unread.
                    token.abandon();
                    token.complete(data);
                    proof {
                        assert(!token.readable());
                    }
                    OpResult::TimedOut { elapsed_ms }
                },
            }
        },
    }
}

/// A callback that never fires can never complete the loop.
proof fn lemma_never_completes(cfg: PollConfig)
    requires
        cfg.wf(),
    ensures
        spec_poll(cfg, None) is TimedOut,
{
    lemma_timeout_window(cfg);
}

} // verus!
