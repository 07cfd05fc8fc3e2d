//! The two phase observers that bracket every other observer on the loop.
//!
//! The bridge registers exactly two observers on the main run loop, in its
//! common delivery mode: a begin observer that fires when the loop wakes from
//! its wait, and an end observer that fires when the loop is about to wait
//! again or exits.  Their priorities are the two extremes the native layer
//! can express (lower runs sooner), so that every observer any other
//! subsystem registers runs between them.

use vstd::prelude::*;

verus! {

/// The native activity flag for "the loop just woke from its wait".
pub const ACTIVITY_AFTER_WAITING: u64 = 0x40;

/// The native activity flag for "the loop is about to wait".
pub const ACTIVITY_BEFORE_WAITING: u64 = 0x20;

/// The native activity flag for "the loop is exiting".
pub const ACTIVITY_EXIT: u64 = 0x80;

/// Which of the two registered observers a native callback belongs to.
#[derive(Clone, Copy, Debug, PartialEq, Eq, Structural)]
pub enum ObserverRole {
    Begin,
    End,
}

/// The notification owed to the application for a phase transition.
#[derive(Clone, Copy, Debug, PartialEq, Eq, Structural)]
pub enum Notification {
    /// The loop has just woken: delivered by the begin observer.
    Wakeup,
    /// The loop is about to sleep again: delivered by the end observer.
    Cleared,
}

/// What a phase callback must do with an incoming activity value.
#[derive(Clone, Copy, Debug, PartialEq, Eq, Structural)]
pub enum PhaseResponse {
    /// Deliver the given application notification, under the panic guard.
    Notify(Notification),
    /// "exit" at the end observer: not expected in normal operation, absorbed
    /// without panicking and without a notification.
    IgnoreExit,
    /// The native layer delivered an activity the registration never asked
    /// for: a contract violation to fail loudly on, never to absorb.
    FatalActivity,
}

/// How each observer answers each activity value.
pub open spec fn response_spec(role: ObserverRole, activity: u64) -> PhaseResponse {
    match role {
        ObserverRole::Begin => if activity == ACTIVITY_AFTER_WAITING {
            PhaseResponse::Notify(Notification::Wakeup)
        } else {
            PhaseResponse::FatalActivity
        },
        ObserverRole::End => if activity == ACTIVITY_BEFORE_WAITING {
            PhaseResponse::Notify(Notification::Cleared)
        } else if activity == ACTIVITY_EXIT {
            PhaseResponse::IgnoreExit
        } else {
            PhaseResponse::FatalActivity
        },
    }
}

/// Classify one activity value delivered to one of the two observers.
pub fn classify_activity(role: ObserverRole, activity: u64) -> (r: PhaseResponse)
    ensures
        r == response_spec(role, activity),
{
    match role {
        ObserverRole::Begin => if activity == ACTIVITY_AFTER_WAITING {
            PhaseResponse::Notify(Notification::Wakeup)
        } else {
            PhaseResponse::FatalActivity
        },
        ObserverRole::End => if activity == ACTIVITY_BEFORE_WAITING {
            PhaseResponse::Notify(Notification::Cleared)
        } else if activity == ACTIVITY_EXIT {
            PhaseResponse::IgnoreExit
        } else {
            PhaseResponse::FatalActivity
        },
    }
}

/// One observer registration: the activity set that triggers it, its
/// priority (the native loop runs observers of the same activity in rising
/// priority order), and whether it keeps firing.
#[derive(Clone, Copy, Debug, PartialEq, Eq, Structural)]
pub struct ObserverRegistration {
    pub role: ObserverRole,
    pub activities: u64,
    pub priority: i64,
    pub repeats: bool,
}

/// The begin observer's registration: "after waiting" only, at the lowest
/// priority there is, so it runs before every other observer.
pub open spec fn begin_registration() -> ObserverRegistration {
    ObserverRegistration {
        role: ObserverRole::Begin,
        activities: ACTIVITY_AFTER_WAITING,
        priority: i64::MIN,
        repeats: true,
    }
}

/// The end observer's registration: "before waiting" and "exit", at the
/// highest priority there is, so it runs after every other observer.
pub open spec fn end_registration() -> ObserverRegistration {
    ObserverRegistration {
        role: ObserverRole::End,
        activities: ACTIVITY_BEFORE_WAITING | ACTIVITY_EXIT,
        priority: i64::MAX,
        repeats: true,
    }
}

/// The two registrations the bridge makes on the main run loop, both in the
/// loop's common delivery mode, begin first.
pub fn control_flow_observer_plan() -> (r: (ObserverRegistration, ObserverRegistration))
    ensures
        r.0 == begin_registration(),
        r.1 == end_registration(),
{
    (
        ObserverRegistration {
            role: ObserverRole::Begin,
            activities: ACTIVITY_AFTER_WAITING,
            priority: i64::MIN,
            repeats: true,
        },
        ObserverRegistration {
            role: ObserverRole::End,
            activities: ACTIVITY_BEFORE_WAITING | ACTIVITY_EXIT,
            priority: i64::MAX,
            repeats: true,
        },
    )
}

/// Bracketing: whatever priority `p` another observer registers at, it lies
/// between the begin observer's and the end observer's, and strictly so
/// unless it claims one of the two extreme priorities for itself.
pub proof fn lemma_observers_bracket(p: i64)
    ensures
        begin_registration().priority <= p <= end_registration().priority,
        p != i64::MIN ==> begin_registration().priority < p,
        p != i64::MAX ==> p < end_registration().priority,
{
}

/// Whether an activity value triggers a registration.
pub open spec fn triggers(reg: ObserverRegistration, activity: u64) -> bool {
    activity & reg.activities != 0
}

/// The registration masks and the callback dispatch agree: an activity an
/// observer registered for is never treated as fatal, and one it did not
/// register for always is.
pub proof fn lemma_masks_match_dispatch(role: ObserverRole, activity: u64)
    requires
        activity == ACTIVITY_AFTER_WAITING || activity == ACTIVITY_BEFORE_WAITING || activity
            == ACTIVITY_EXIT,
    ensures
        role == ObserverRole::Begin ==> (response_spec(role, activity) !is FatalActivity
            <==> triggers(begin_registration(), activity)),
        role == ObserverRole::End ==> (response_spec(role, activity) !is FatalActivity
            <==> triggers(end_registration(), activity)),
{
    assert(0x40u64 & 0x40u64 != 0) by (bit_vector);
    assert(0x20u64 & 0x40u64 == 0) by (bit_vector);
    assert(0x80u64 & 0x40u64 == 0) by (bit_vector);
    assert(0x40u64 & (0x20u64 | 0x80u64) == 0) by (bit_vector);
    assert(0x20u64 & (0x20u64 | 0x80u64) != 0) by (bit_vector);
    assert(0x80u64 & (0x20u64 | 0x80u64) != 0) by (bit_vector);
}

} // verus!
