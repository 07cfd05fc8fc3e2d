//! The panic slot and the guard decisions around every native callback.
//!
//! A panic raised inside an application notification must never unwind into
//! native run-loop frames.  The embedding traps it at the callback boundary
//! and reports the outcome here; this module decides everything else: whether
//! the callback may run at all (only while the loop owner is still alive),
//! how a trapped panic arms the shared slot and demands that the loop stop,
//! and how the captured payload is surrendered exactly once for re-raising.

use vstd::prelude::*;

use crate::observer::ObserverRole;
use crate::observer::Notification;
use crate::observer::PhaseResponse;
use crate::observer::classify_activity;
use crate::observer::response_spec;

verus! {

/// What the guarded application callback did.
#[derive(Clone, Copy, Debug, PartialEq, Eq, Structural)]
pub enum CallbackOutcome {
    /// The notification returned normally.
    Returned,
    /// The notification panicked; the panic was trapped at the boundary.
    Panicked,
}

/// What the embedding must do with the loop after a callback was absorbed.
#[derive(Clone, Copy, Debug, PartialEq, Eq, Structural)]
pub enum LoopCommand {
    /// Let the loop run on.
    KeepRunning,
    /// Stop the loop as soon as control returns to the native layer.
    StopLoop,
}

/// The shared cell the loop owner keeps and every native callback reaches
/// through a weak handle: whether a panic payload has been captured.  The
/// payload itself (an opaque boxed value) travels beside this flag in the
/// embedding; the flag alone decides every transition.
#[derive(Clone, Copy, Debug, PartialEq, Eq, Structural)]
pub struct PanicSlot {
    pub panicked: bool,
}

/// The slot state after one guarded outcome is absorbed: a trapped panic
/// arms it, and nothing ever disarms it but a take.
pub open spec fn slot_after_absorb(s: PanicSlot, outcome: CallbackOutcome) -> PanicSlot {
    PanicSlot { panicked: s.panicked || outcome is Panicked }
}

/// The slot state left by a take, and the flag the take surrenders.
pub open spec fn slot_after_take(s: PanicSlot) -> (PanicSlot, bool) {
    (PanicSlot { panicked: false }, s.panicked)
}

impl PanicSlot {
    /// A fresh slot, holding nothing: made once when the loop starts.
    pub fn new() -> (s: PanicSlot)
        ensures
            !s.panicked,
    {
        PanicSlot { panicked: false }
    }

    /// Whether a captured panic is waiting to be re-raised.
    pub fn is_panicking(&self) -> (r: bool)
        ensures
            r == self.panicked,
    {
        self.panicked
    }

    /// Absorb the outcome of one guarded callback: a panic arms the slot and
    /// asks the embedding to stop the loop rather than let anything unwind
    /// into native frames; a normal return changes nothing.
    pub fn absorb(&mut self, outcome: CallbackOutcome) -> (cmd: LoopCommand)
        ensures
            *final(self) == slot_after_absorb(*old(self), outcome),
            cmd is StopLoop <==> outcome is Panicked,
    {
        match outcome {
            CallbackOutcome::Returned => LoopCommand::KeepRunning,
            CallbackOutcome::Panicked => {
                self.panicked = true;
                LoopCommand::StopLoop
            },
        }
    }

    /// Surrender the captured panic for re-raising, emptying the slot: the
    /// owner re-raises when this says so, and a second call finds nothing,
    /// so the payload is surfaced exactly once.
    pub fn take(&mut self) -> (had: bool)
        ensures
            *final(self) == slot_after_take(*old(self)).0,
            had == slot_after_take(*old(self)).1,
    {
        let had = self.panicked;
        self.panicked = false;
        had
    }
}

/// A panic trapped in a callback is surfaced exactly once: absorbing it
/// arms the slot, the first take surrenders the captured flag and empties
/// the slot, and a second take finds nothing to re-raise.
pub proof fn lemma_panic_surfaced_once(s: PanicSlot)
    ensures
        slot_after_absorb(s, CallbackOutcome::Panicked).panicked,
        slot_after_take(slot_after_absorb(s, CallbackOutcome::Panicked)).1,
        !slot_after_take(slot_after_take(slot_after_absorb(s, CallbackOutcome::Panicked)).0).1,
{
}

/// Everything observable one native phase callback does.
#[derive(Clone, Copy, Debug, PartialEq, Eq, Structural)]
pub enum CallbackEffect {
    /// The loop owner is gone: the callback did nothing at all.
    SkippedDeadOwner,
    /// The notification was delivered and returned normally.
    Delivered(Notification),
    /// The notification panicked: the panic was trapped, the slot armed, and
    /// the embedding must stop the loop.
    PanicTrapped(Notification),
    /// "exit" at the end observer: absorbed without a notification.
    ExitIgnored,
    /// A native contract violation: the embedding must abort loudly.
    FatalActivity,
}

/// One native phase callback, end to end.  `owner` is the panic slot when
/// the weak handle to the loop owner still upgrades, `None` once the owner
/// is gone; `outcome` is what the application notification would do were it
/// invoked.  The returned slot replaces `owner`; the effect says what the
/// embedding must still do.  Every native-to-application notification goes
/// through this one choke point.
pub fn observer_callback(
    owner: Option<PanicSlot>,
    role: ObserverRole,
    activity: u64,
    outcome: CallbackOutcome,
) -> (r: (Option<PanicSlot>, CallbackEffect))
    ensures
        owner is None ==> r == (None::<PanicSlot>, CallbackEffect::SkippedDeadOwner),
        owner matches Some(slot) ==> match response_spec(role, activity) {
            PhaseResponse::Notify(n) => match outcome {
                CallbackOutcome::Returned => r == (Some(slot), CallbackEffect::Delivered(n)),
                CallbackOutcome::Panicked => r == (
                    Some((PanicSlot { panicked: true })),
                    CallbackEffect::PanicTrapped(n),
                ),
            },
            PhaseResponse::IgnoreExit => r == (Some(slot), CallbackEffect::ExitIgnored),
            PhaseResponse::FatalActivity => r == (Some(slot), CallbackEffect::FatalActivity),
        },
{
    match owner {
        None => (None, CallbackEffect::SkippedDeadOwner),
        Some(slot) => {
            let mut slot = slot;
            match classify_activity(role, activity) {
                PhaseResponse::Notify(n) => match outcome {
                    CallbackOutcome::Returned => (Some(slot), CallbackEffect::Delivered(n)),
                    CallbackOutcome::Panicked => {
                        let cmd = slot.absorb(CallbackOutcome::Panicked);
                        assert(cmd is StopLoop);
                        (Some(slot), CallbackEffect::PanicTrapped(n))
                    },
                },
                PhaseResponse::IgnoreExit => (Some(slot), CallbackEffect::ExitIgnored),
                PhaseResponse::FatalActivity => (Some(slot), CallbackEffect::FatalActivity),
            }
        },
    }
}

} // verus!
