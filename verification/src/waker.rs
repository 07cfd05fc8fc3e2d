//! The waker: one native recurring timer, reprogrammed idempotently.
//!
//! The waker owns (through the embedding) a single recurring native timer and
//! encodes every wake request as a change of that timer's next fire date.  It
//! records the fire date it last programmed, so a request that asks for the
//! state the timer is already in makes no native call at all.

use vstd::prelude::*;

use crate::time::Instant;

verus! {

/// Repeat interval, in nanoseconds, of the native recurring timer the waker
/// owns: a tenth of a microsecond, small enough to emulate a polling tick
/// without the timer's own callback doing any work.
pub const TIMER_INTERVAL_NANOS: u64 = 100;

/// A fire date for the native timer, as the waker hands it to the embedding
/// to program.
#[derive(Clone, Copy, Debug, PartialEq, Eq, Structural)]
pub enum FireDate {
    /// The latest representable native time: the timer never fires.
    DistantFuture,
    /// The earliest representable native time: the timer fires immediately.
    DistantPast,
    /// `delay_nanos` nanoseconds after the moment of the request, on the
    /// native clock.
    After { delay_nanos: u64 },
}

/// One request made of the waker.  A `WakeAt` request carries the monotonic
/// clock reading `now` taken at the moment it was made, since how a deadline
/// is honoured depends on whether it has already passed.
#[derive(Clone, Copy, Debug)]
pub enum WakeRequest {
    /// Sleep until an external event: never fire.
    Stop,
    /// Wake immediately.
    WakeNow,
    /// Wake at `deadline`, if there is one; `WakeAt` with no deadline asks
    /// for the same thing as `Stop`.
    WakeAt { deadline: Option<Instant>, now: Instant },
}

/// The fire date the waker records after honouring `req`.  `start` is the
/// sentinel instant the waker was built with: every `WakeNow` records it, so
/// that "already waking now" is a plain equality of recorded dates.
pub open spec fn step_state(start: Instant, req: WakeRequest) -> Option<Instant> {
    match req {
        WakeRequest::Stop => None,
        WakeRequest::WakeNow => Some(start),
        WakeRequest::WakeAt { deadline, now } => match deadline {
            None => None,
            Some(t) => if t.nanos <= now.nanos {
                Some(start)
            } else {
                Some(t)
            },
        },
    }
}

/// Whether honouring `req` from recorded fire date `fire` reprograms the
/// native timer: exactly when the recorded date changes.
pub open spec fn step_reprograms(start: Instant, fire: Option<Instant>, req: WakeRequest) -> bool {
    step_state(start, req) != fire
}

/// The fire date a reprogramming call carries, when one is made.
pub open spec fn step_fire_date(start: Instant, req: WakeRequest) -> FireDate {
    match req {
        WakeRequest::Stop => FireDate::DistantFuture,
        WakeRequest::WakeNow => FireDate::DistantPast,
        WakeRequest::WakeAt { deadline, now } => match deadline {
            None => FireDate::DistantFuture,
            Some(t) => if t.nanos <= now.nanos {
                FireDate::DistantPast
            } else {
                (FireDate::After { delay_nanos: (t.nanos - now.nanos) as u64 })
            },
        },
    }
}

/// The waker.  `next_fire_date` is what the native timer's fire date has
/// been set to: `None` for "never" (stopped), `Some(start_instant)` for
/// "immediately", and `Some(t)` for a pending deadline `t`.
pub struct EventLoopWaker {
    /// A fixed sentinel chosen once at construction (an instant already in
    /// the past of every later request) and recorded for every `WakeNow`,
    /// so that redundant requests are caught by comparing recorded dates.
    pub start_instant: Instant,
    /// The fire date last programmed into the native timer.
    pub next_fire_date: Option<Instant>,
}

impl EventLoopWaker {
    /// A fresh waker.  The embedding creates the native recurring timer with
    /// its first fire date in the distant future, so the waker starts out
    /// stopped.
    pub fn new(start_instant: Instant) -> (w: EventLoopWaker)
        ensures
            w.start_instant == start_instant,
            w.next_fire_date is None,
    {
        EventLoopWaker { start_instant, next_fire_date: None }
    }

    /// Stop waking: the timer must never fire.  Returns the fire date to
    /// program, or `None` when the waker was already stopped.
    pub fn stop(&mut self) -> (cmd: Option<FireDate>)
        ensures
            final(self).start_instant == old(self).start_instant,
            final(self).next_fire_date == step_state(old(self).start_instant, WakeRequest::Stop),
            cmd == (if step_reprograms(old(self).start_instant, old(self).next_fire_date,
                    WakeRequest::Stop) {
                Some(step_fire_date(old(self).start_instant, WakeRequest::Stop))
            } else {
                None::<FireDate>
            }),
    {
        if self.next_fire_date.is_some() {
            self.next_fire_date = None;
            Some(FireDate::DistantFuture)
        } else {
            None
        }
    }

    /// Wake immediately.  Returns the fire date to program, or `None` when an
    /// immediate wake is already pending.
    pub fn start(&mut self) -> (cmd: Option<FireDate>)
        ensures
            final(self).start_instant == old(self).start_instant,
            final(self).next_fire_date == step_state(old(self).start_instant, WakeRequest::WakeNow),
            cmd == (if step_reprograms(old(self).start_instant, old(self).next_fire_date,
                    WakeRequest::WakeNow) {
                Some(step_fire_date(old(self).start_instant, WakeRequest::WakeNow))
            } else {
                None::<FireDate>
            }),
    {
        let already = match self.next_fire_date {
            Some(d) => d.nanos == self.start_instant.nanos,
            None => false,
        };
        if already {
            None
        } else {
            self.next_fire_date = Some(self.start_instant);
            Some(FireDate::DistantPast)
        }
    }

    /// Wake at `deadline`: with no deadline, behave as `stop`; with one at or
    /// before `now`, behave as `start`; with a future one, record it and have
    /// the timer programmed `deadline - now` from the current native time,
    /// unless that very deadline is already recorded.
    pub fn start_at(&mut self, deadline: Option<Instant>, now: Instant) -> (cmd: Option<FireDate>)
        ensures
            final(self).start_instant == old(self).start_instant,
            final(self).next_fire_date == step_state(old(self).start_instant,
                (WakeRequest::WakeAt { deadline, now })),
            cmd == (if step_reprograms(old(self).start_instant, old(self).next_fire_date,
                    (WakeRequest::WakeAt { deadline, now })) {
                Some(step_fire_date(old(self).start_instant, (WakeRequest::WakeAt { deadline, now })))
            } else {
                None::<FireDate>
            }),
    {
        match deadline {
            None => self.stop(),
            Some(t) => {
                if t.is_at_or_before(&now) {
                    self.start()
                } else {
                    let already = match self.next_fire_date {
                        Some(d) => d.nanos == t.nanos,
                        None => false,
                    };
                    if already {
                        None
                    } else {
                        self.next_fire_date = Some(t);
                        Some(FireDate::After { delay_nanos: t.nanos - now.nanos })
                    }
                }
            },
        }
    }
}

/// The recorded fire dates that honouring `reqs` in order produces, starting
/// from `fire`, the starting date included.
pub open spec fn state_trace(start: Instant, fire: Option<Instant>, reqs: Seq<WakeRequest>)
    -> Seq<Option<Instant>>
    decreases reqs.len(),
{
    if reqs.len() == 0 {
        seq![fire]
    } else {
        seq![fire] + state_trace(start, step_state(start, reqs[0]), reqs.drop_first())
    }
}

/// How many native reprogramming calls honouring `reqs` in order makes,
/// starting from recorded fire date `fire`.
pub open spec fn count_reprograms(start: Instant, fire: Option<Instant>, reqs: Seq<WakeRequest>)
    -> nat
    decreases reqs.len(),
{
    if reqs.len() == 0 {
        0
    } else {
        (if step_reprograms(start, fire, reqs[0]) {
            1nat
        } else {
            0nat
        }) + count_reprograms(start, step_state(start, reqs[0]), reqs.drop_first())
    }
}

/// How many adjacent pairs of `tr` differ: one less than the number of
/// distinct consecutive values `tr` runs through.
pub open spec fn count_changes(tr: Seq<Option<Instant>>) -> nat
    decreases tr.len(),
{
    if tr.len() < 2 {
        0
    } else {
        (if tr[0] != tr[1] {
            1nat
        } else {
            0nat
        }) + count_changes(tr.drop_first())
    }
}

proof fn lemma_trace_shape(start: Instant, fire: Option<Instant>, reqs: Seq<WakeRequest>)
    ensures
        state_trace(start, fire, reqs).len() == reqs.len() + 1,
        state_trace(start, fire, reqs)[0] == fire,
    decreases reqs.len(),
{
    if reqs.len() > 0 {
        lemma_trace_shape(start, step_state(start, reqs[0]), reqs.drop_first());
    }
}

/// Reprogramming is idempotent over whole histories: for any sequence of
/// requests, the number of native reprogramming calls equals the number of
/// changes in the trace of recorded fire dates — one per distinct consecutive
/// recorded state beyond the first, never one per request.
pub proof fn lemma_reprograms_count_changes(
    start: Instant,
    fire: Option<Instant>,
    reqs: Seq<WakeRequest>,
)
    ensures
        count_reprograms(start, fire, reqs) == count_changes(state_trace(start, fire, reqs)),
    decreases reqs.len(),
{
    if reqs.len() > 0 {
        let next = step_state(start, reqs[0]);
        let tail = state_trace(start, next, reqs.drop_first());
        lemma_trace_shape(start, next, reqs.drop_first());
        lemma_reprograms_count_changes(start, next, reqs.drop_first());
        assert((seq![fire] + tail).drop_first() =~= tail);
    }
}

/// A `wake at` request whose deadline has already passed is honoured exactly
/// as `wake now`: same recorded state, same decision to reprogram, same
/// programmed fire date.
pub proof fn lemma_wake_at_past_is_wake_now(
    start: Instant,
    fire: Option<Instant>,
    deadline: Instant,
    now: Instant,
)
    requires
        deadline.nanos <= now.nanos,
    ensures
        step_state(start, (WakeRequest::WakeAt { deadline: Some(deadline), now }))
            == step_state(start, WakeRequest::WakeNow),
        step_reprograms(start, fire, (WakeRequest::WakeAt { deadline: Some(deadline), now }))
            == step_reprograms(start, fire, WakeRequest::WakeNow),
        step_fire_date(start, (WakeRequest::WakeAt { deadline: Some(deadline), now }))
            == step_fire_date(start, WakeRequest::WakeNow),
{
}

/// A `wake at` request with no deadline is honoured exactly as `stop`: same
/// recorded state, same decision to reprogram, same programmed fire date.
pub proof fn lemma_wake_at_none_is_stop(
    start: Instant,
    fire: Option<Instant>,
    now: Instant,
)
    ensures
        step_state(start, (WakeRequest::WakeAt { deadline: None, now }))
            == step_state(start, WakeRequest::Stop),
        step_reprograms(start, fire, (WakeRequest::WakeAt { deadline: None, now }))
            == step_reprograms(start, fire, WakeRequest::Stop),
        step_fire_date(start, (WakeRequest::WakeAt { deadline: None, now }))
            == step_fire_date(start, WakeRequest::Stop),
{
}

} // verus!
