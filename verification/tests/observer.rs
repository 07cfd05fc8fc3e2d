use wakeloop::observer::classify_activity;
use wakeloop::observer::control_flow_observer_plan;
use wakeloop::observer::Notification;
use wakeloop::observer::ObserverRole;
use wakeloop::observer::PhaseResponse;
use wakeloop::observer::ACTIVITY_AFTER_WAITING;
use wakeloop::observer::ACTIVITY_BEFORE_WAITING;
use wakeloop::observer::ACTIVITY_EXIT;

#[test]
fn begin_observer_notifies_wakeup_after_waiting() {
    assert_eq!(
        classify_activity(ObserverRole::Begin, ACTIVITY_AFTER_WAITING),
        PhaseResponse::Notify(Notification::Wakeup)
    );
}

#[test]
fn begin_observer_rejects_every_other_activity() {
    assert_eq!(
        classify_activity(ObserverRole::Begin, ACTIVITY_BEFORE_WAITING),
        PhaseResponse::FatalActivity
    );
    assert_eq!(
        classify_activity(ObserverRole::Begin, ACTIVITY_EXIT),
        PhaseResponse::FatalActivity
    );
    assert_eq!(classify_activity(ObserverRole::Begin, 0x1), PhaseResponse::FatalActivity);
    assert_eq!(classify_activity(ObserverRole::Begin, 0x0), PhaseResponse::FatalActivity);
}

#[test]
fn end_observer_notifies_cleared_before_waiting() {
    assert_eq!(
        classify_activity(ObserverRole::End, ACTIVITY_BEFORE_WAITING),
        PhaseResponse::Notify(Notification::Cleared)
    );
}

#[test]
fn end_observer_ignores_exit() {
    assert_eq!(classify_activity(ObserverRole::End, ACTIVITY_EXIT), PhaseResponse::IgnoreExit);
}

#[test]
fn end_observer_rejects_every_other_activity() {
    assert_eq!(
        classify_activity(ObserverRole::End, ACTIVITY_AFTER_WAITING),
        PhaseResponse::FatalActivity
    );
    assert_eq!(classify_activity(ObserverRole::End, 0x2), PhaseResponse::FatalActivity);
    assert_eq!(classify_activity(ObserverRole::End, 0x0), PhaseResponse::FatalActivity);
}

#[test]
fn plan_brackets_all_other_priorities() {
    let (begin, end) = control_flow_observer_plan();
    assert_eq!(begin.role, ObserverRole::Begin);
    assert_eq!(end.role, ObserverRole::End);
    assert_eq!(begin.priority, i64::MIN);
    assert_eq!(end.priority, i64::MAX);
    // Any priority another subsystem can pick lies between the two.
    for p in [i64::MIN + 1, -1_000_000, 0, 1_000_000, i64::MAX - 1] {
        assert!(begin.priority < p);
        assert!(p < end.priority);
    }
}

#[test]
fn plan_masks_match_the_handled_activities() {
    let (begin, end) = control_flow_observer_plan();
    assert_eq!(begin.activities, ACTIVITY_AFTER_WAITING);
    assert_eq!(end.activities, ACTIVITY_BEFORE_WAITING | ACTIVITY_EXIT);
    assert!(begin.repeats);
    assert!(end.repeats);
    assert_eq!(ACTIVITY_AFTER_WAITING, 0x40);
    assert_eq!(ACTIVITY_BEFORE_WAITING, 0x20);
    assert_eq!(ACTIVITY_EXIT, 0x80);
}
