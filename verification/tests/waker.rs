use wakeloop::time::Instant;
use wakeloop::waker::EventLoopWaker;
use wakeloop::waker::FireDate;

fn at(nanos: u64) -> Instant {
    Instant::from_nanos(nanos)
}

#[test]
fn instants_order_by_their_nanoseconds() {
    assert!(at(5).is_at_or_before(&at(5)));
    assert!(at(5).is_at_or_before(&at(6)));
    assert!(!at(6).is_at_or_before(&at(5)));
}

#[test]
fn fresh_waker_is_stopped() {
    let w = EventLoopWaker::new(at(7));
    assert_eq!(w.start_instant, at(7));
    assert!(w.next_fire_date.is_none());
}

#[test]
fn wake_at_future_deadline_reprograms_once() {
    // Schedule a wake 50ms ahead: exactly one reprogramming call, carrying
    // the 50ms delay; asking again for the same deadline makes none.
    let start = at(0);
    let now = at(1_000_000_000);
    let deadline = at(1_000_000_000 + 50_000_000);
    let mut w = EventLoopWaker::new(start);
    let cmd = w.start_at(Some(deadline), now);
    assert_eq!(cmd, Some(FireDate::After { delay_nanos: 50_000_000 }));
    assert_eq!(w.next_fire_date, Some(deadline));
    let again = w.start_at(Some(deadline), at(1_000_000_001));
    assert_eq!(again, None);
    assert_eq!(w.next_fire_date, Some(deadline));
}

#[test]
fn stop_twice_reprograms_once() {
    let mut w = EventLoopWaker::new(at(3));
    let started = w.start();
    assert_eq!(started, Some(FireDate::DistantPast));
    let first = w.stop();
    assert_eq!(first, Some(FireDate::DistantFuture));
    assert!(w.next_fire_date.is_none());
    let second = w.stop();
    assert_eq!(second, None);
    assert!(w.next_fire_date.is_none());
}

#[test]
fn stop_on_fresh_waker_is_a_no_op() {
    let mut w = EventLoopWaker::new(at(3));
    assert_eq!(w.stop(), None);
}

#[test]
fn wake_now_twice_reprograms_once() {
    let start = at(11);
    let mut w = EventLoopWaker::new(start);
    let first = w.start();
    assert_eq!(first, Some(FireDate::DistantPast));
    assert_eq!(w.next_fire_date, Some(start));
    let second = w.start();
    assert_eq!(second, None);
    assert_eq!(w.next_fire_date, Some(start));
}

#[test]
fn wake_at_past_deadline_acts_as_wake_now() {
    let start = at(2);
    let mut w = EventLoopWaker::new(start);
    // The deadline equals `now`, so it has already passed.
    let cmd = w.start_at(Some(at(500)), at(500));
    assert_eq!(cmd, Some(FireDate::DistantPast));
    assert_eq!(w.next_fire_date, Some(start));
    // An earlier deadline behaves the same, and is already honoured.
    let cmd = w.start_at(Some(at(400)), at(600));
    assert_eq!(cmd, None);
    assert_eq!(w.next_fire_date, Some(start));
}

#[test]
fn wake_at_without_deadline_acts_as_stop() {
    let mut w = EventLoopWaker::new(at(2));
    w.start();
    let cmd = w.start_at(None, at(900));
    assert_eq!(cmd, Some(FireDate::DistantFuture));
    assert!(w.next_fire_date.is_none());
    let cmd = w.start_at(None, at(950));
    assert_eq!(cmd, None);
}

#[test]
fn reprogram_count_follows_state_changes() {
    // Nine requests, of which only five change the recorded state: the
    // native timer is reprogrammed five times, not nine.
    let start = at(0);
    let mut w = EventLoopWaker::new(start);
    let mut calls: usize = 0;
    let mut states = vec![w.next_fire_date];
    let now = at(1_000);
    let later = at(2_000);
    let requests: Vec<Option<Option<Instant>>> = vec![
        None,                // stop (no change: fresh waker is stopped)
        Some(Some(later)),   // future deadline (change)
        Some(Some(later)),   // same deadline (no change)
        Some(None),          // wake_at(None) = stop (change)
        Some(None),          // again (no change)
        Some(Some(at(500))), // past deadline = wake now (change)
        Some(Some(at(400))), // past deadline again (no change)
        None,                // stop (change)
        Some(Some(later)),   // future deadline (change)
    ];
    for req in requests {
        let cmd = match req {
            None => w.stop(),
            Some(deadline) => w.start_at(deadline, now),
        };
        if cmd.is_some() {
            calls += 1;
        }
        states.push(w.next_fire_date);
    }
    let changes = states.windows(2).filter(|p| p[0] != p[1]).count();
    assert_eq!(calls, changes);
    assert_eq!(calls, 5);
}
