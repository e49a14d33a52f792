use std::sync::atomic::{AtomicUsize, Ordering};
use std::sync::Arc;
use std::task::{Wake, Waker};

use async_io::time::{Clock, Duration, Instant, Offset};
use async_io::timer::{Timer, TimerKey, TimerPoll};

struct Task {
    woken: AtomicUsize,
}

impl Wake for Task {
    fn wake(self: Arc<Self>) {
        self.woken.fetch_add(1, Ordering::SeqCst);
    }
}

fn task() -> (Arc<Task>, Waker) {
    let task = Arc::new(Task {
        woken: AtomicUsize::new(0),
    });
    let waker = Waker::from(task.clone());
    (task, waker)
}

/// What a poll asks for, but for the waker to enter.
#[derive(Debug, PartialEq, Eq)]
enum Asked {
    Ready {
        when: Instant,
        remove: Option<TimerKey>,
    },
    Register {
        when: Instant,
        remove: Option<TimerKey>,
    },
    Pending,
}

fn asked(poll: TimerPoll) -> Asked {
    match poll {
        TimerPoll::Ready { when, remove } => Asked::Ready { when, remove },
        TimerPoll::Register { when, remove, .. } => Asked::Register { when, remove },
        TimerPoll::Pending => Asked::Pending,
    }
}

fn point(nanos: i128) -> Instant {
    Instant { nanos }
}

#[test]
fn durations_count_nanoseconds() {
    assert_eq!(Duration::from_secs(1).nanos(), 1_000_000_000);
    assert_eq!(Duration::from_millis(100).nanos(), 100_000_000);
    assert_eq!(Duration::from_millis(1_234).nanos(), 1_234_000_000);
    assert_eq!(Duration::new(2, 5).nanos(), 2_000_000_005);
    assert_eq!(
        Duration::new(u64::MAX, 999_999_999).nanos(),
        18_446_744_073_709_551_615_999_999_999
    );
}

#[test]
fn whole_seconds_are_carried_over() {
    assert_eq!(Duration::new(1, 3_500_000_000), Duration::new(4, 500_000_000));
    assert_eq!(Duration::new(0, u32::MAX).nanos(), 4_294_967_295);
}

#[test]
fn parts_of_a_duration() {
    let duration = Duration::new(1, 3_500_000_000);
    assert_eq!(duration.as_secs(), 4);
    assert_eq!(duration.subsec_nanos(), 500_000_000);
    assert_eq!(Duration::from_millis(1_234).subsec_nanos(), 234_000_000);
}

#[test]
fn points_and_offsets_determine_each_other() {
    let distance = Duration::new(2, 7);
    assert_eq!(Instant::from_offset(Offset::After(distance)), point(2_000_000_007));
    assert_eq!(Instant::from_offset(Offset::Before(distance)), point(-2_000_000_007));
    assert_eq!(point(2_000_000_007).offset(), Some(Offset::After(distance)));
    assert_eq!(point(-2_000_000_007).offset(), Some(Offset::Before(distance)));
    assert_eq!(point(0).offset(), Some(Offset::After(Duration::from_secs(0))));
}

#[test]
fn offset_is_no_longer_than_the_longest_duration() {
    let longest = Duration::new(u64::MAX, 999_999_999);
    let nanos = longest.nanos();
    assert_eq!(point(nanos).offset(), Some(Offset::After(longest)));
    assert_eq!(point(nanos + 1).offset(), None);
    assert_eq!(point(-nanos).offset(), Some(Offset::Before(longest)));
    assert_eq!(point(-nanos - 1).offset(), None);
    assert_eq!(point(i128::MIN).offset(), None);
}

#[test]
fn point_plus_duration() {
    assert_eq!(point(-7).plus(Duration::new(0, 10)), point(3));
    assert_eq!(point(5).plus(Duration::from_secs(0)), point(5));
}

#[test]
fn reading_is_the_time_since_the_origin() {
    assert_eq!(Instant::since_origin(Duration::from_secs(0)), point(0));
    assert_eq!(Instant::since_origin(Duration::new(2, 7)), point(2_000_000_007));
}

#[test]
fn clock_goes_on() {
    let origin = std::time::Instant::now();
    let clock = Clock::new(origin);
    assert_eq!(clock.origin(), origin);

    let start = clock.now();
    assert!(start.nanos >= 0);
    let mut now = clock.now();
    while now.nanos < start.nanos + 2_000_000 {
        let before = now;
        now = clock.now();
        assert!(now.nanos >= before.nanos);
    }
    let elapsed = origin.elapsed().as_nanos();
    assert!(now.nanos as u128 <= elapsed);
}

#[test]
fn clock_counts_from_its_origin() {
    let origin = std::time::Instant::now();
    let late = match origin.checked_sub(std::time::Duration::from_secs(1)) {
        Some(early) => Clock::new(early).now(),
        None => return,
    };
    assert!(late.nanos >= 1_000_000_000);
    assert!(late.nanos < 1_000_000_000_000);
}

#[test]
fn new_timer_has_no_entry() {
    let timer = Timer::at(point(10));
    assert_eq!(timer.when(), point(10));
    assert_eq!(timer.key(), None);
}

#[test]
fn after_counts_from_now() {
    let timer = Timer::after_instant(point(7), Duration::from_secs(1));
    assert_eq!(timer.when(), point(1_000_000_007));
    assert_eq!(timer.key(), None);

    let clock = Clock::new(std::time::Instant::now());
    let before = clock.now();
    let timer = Timer::after(&clock, Duration::from_secs(3));
    let after = clock.now();
    assert!(before.nanos + 3_000_000_000 <= timer.when().nanos);
    assert!(timer.when().nanos <= after.nanos + 3_000_000_000);
}

#[test]
fn timer_is_ready_from_its_time_on() {
    let (_, current) = task();
    let mut timer = Timer::at(point(10));
    assert_eq!(
        asked(timer.poll_at(point(9), false, &current)),
        Asked::Register {
            when: point(10),
            remove: None
        }
    );
    assert_eq!(
        asked(timer.poll_at(point(10), false, &current)),
        Asked::Ready {
            when: point(10),
            remove: None
        }
    );
    assert_eq!(
        asked(timer.poll_at(point(11), true, &current)),
        Asked::Ready {
            when: point(10),
            remove: None
        }
    );
}

#[test]
fn timer_before_the_origin_is_ready() {
    let clock = Clock::new(std::time::Instant::now());
    let (_, waker) = task();
    let mut timer = Timer::at(point(-1));
    assert_eq!(
        asked(timer.poll(&clock, &waker)),
        Asked::Ready {
            when: point(-1),
            remove: None
        }
    );
}

#[test]
fn waiting_timer_keeps_its_entry_for_the_same_task() {
    let (_, current) = task();
    let (_, waker) = task();
    let mut timer = Timer::at(point(10));
    asked(timer.poll_at(point(0), false, &current));
    timer.registered(3, waker);
    assert_eq!(
        timer.key(),
        Some(TimerKey {
            when: point(10),
            id: 3
        })
    );
    assert_eq!(asked(timer.poll_at(point(5), true, &current)), Asked::Pending);
    assert_eq!(timer.key().map(|key| key.id), Some(3));
}

#[test]
fn waiting_timer_gets_a_new_entry_for_another_task() {
    let (_, current) = task();
    let (_, waker) = task();
    let (_, other) = task();
    let mut timer = Timer::at(point(10));
    timer.registered(3, waker);
    assert_eq!(
        asked(timer.poll_at(point(5), false, &current)),
        Asked::Register {
            when: point(10),
            remove: Some(TimerKey {
                when: point(10),
                id: 3
            })
        }
    );
    assert_eq!(timer.key(), None);
    timer.registered(4, other);
    assert_eq!(timer.key().map(|key| key.id), Some(4));
}

#[test]
fn expired_timer_removes_its_entry() {
    let (_, current) = task();
    let (_, waker) = task();
    let mut timer = Timer::at(point(10));
    timer.registered(3, waker);
    assert_eq!(
        asked(timer.poll_at(point(12), true, &current)),
        Asked::Ready {
            when: point(10),
            remove: Some(TimerKey {
                when: point(10),
                id: 3
            })
        }
    );
    assert_eq!(timer.key(), None);
    assert_eq!(timer.unregister(), None);
}

#[test]
fn polling_compares_wakers() {
    let clock = Clock::new(std::time::Instant::now());
    let (_, waker) = task();
    let (_, other) = task();
    let mut timer = Timer::after(&clock, Duration::from_secs(1_000));
    let when = timer.when();

    assert_eq!(
        asked(timer.poll(&clock, &waker)),
        Asked::Register { when, remove: None }
    );
    timer.registered(8, waker.clone());
    assert_eq!(asked(timer.poll(&clock, &waker)), Asked::Pending);
    assert_eq!(
        asked(timer.poll(&clock, &other)),
        Asked::Register {
            when,
            remove: Some(TimerKey { when, id: 8 })
        }
    );
}

#[test]
fn setting_a_timer_without_entry() {
    let mut timer = Timer::at(point(10));
    assert!(timer.set_at(point(20)).is_none());
    assert_eq!(timer.when(), point(20));
    assert_eq!(timer.key(), None);
}

#[test]
fn setting_a_timer_keeps_its_waker() {
    let (task, waker) = task();
    let mut timer = Timer::at(point(10));
    timer.registered(1, waker);

    let rearm = timer.set_at(point(4)).unwrap();
    assert_eq!(
        rearm.remove,
        TimerKey {
            when: point(10),
            id: 1
        }
    );
    assert_eq!(rearm.when, point(4));
    rearm.waker.wake_by_ref();
    assert_eq!(task.woken.load(Ordering::SeqCst), 1);
    assert_eq!(timer.key(), None);

    timer.registered(2, rearm.waker);
    assert_eq!(
        timer.unregister(),
        Some(TimerKey {
            when: point(4),
            id: 2
        })
    );
    assert_eq!(timer.unregister(), None);
}

#[test]
fn setting_a_timer_after_a_duration() {
    let mut timer = Timer::at(point(10));
    assert!(timer
        .set_after_instant(point(100), Duration::from_millis(100))
        .is_none());
    assert_eq!(timer.when(), point(100_000_100));

    let clock = Clock::new(std::time::Instant::now());
    let (_, waker) = task();
    timer.registered(5, waker);
    let before = clock.now();
    let rearm = timer.set_after(&clock, Duration::from_secs(2)).unwrap();
    assert_eq!(
        rearm.remove,
        TimerKey {
            when: point(100_000_100),
            id: 5
        }
    );
    assert_eq!(rearm.when, timer.when());
    assert!(timer.when().nanos >= before.nanos + 2_000_000_000);
}

#[test]
fn table_is_exact_over_the_life_of_a_timer() {
    let (_, current) = task();
    fn key(nanos: i128, id: usize) -> TimerKey {
        TimerKey {
            when: point(nanos),
            id,
        }
    }

    let (_, waker) = task();
    let others = vec![key(10, 0), key(20, 1)];
    let mut table = others.clone();
    let mut timer = Timer::at(point(10));

    let first = asked(timer.poll_at(point(1), false, &current));
    assert_eq!(
        first,
        Asked::Register {
            when: point(10),
            remove: None
        }
    );
    table.push(key(10, 2));
    timer.registered(2, waker);

    let rearm = timer.set_at(point(20)).unwrap();
    table.retain(|entry| *entry != rearm.remove);
    table.push(key(20, 3));
    timer.registered(3, rearm.waker);
    assert_eq!(table, vec![key(10, 0), key(20, 1), key(20, 3)]);

    let removed = timer.unregister();
    table.retain(|entry| Some(*entry) != removed);
    assert_eq!(table, others);
}

#[test]
fn waker_of_the_polling_task_is_entered() {
    let (first, waker) = task();
    let (second, other) = task();
    let mut timer = Timer::at(point(10));
    match timer.poll_at(point(0), false, &waker) {
        TimerPoll::Register { waker, .. } => {
            waker.wake_by_ref();
            timer.registered(1, waker);
        }
        poll => panic!("{:?}", poll),
    }
    match timer.poll_at(point(0), false, &other) {
        TimerPoll::Register { waker, .. } => waker.wake_by_ref(),
        poll => panic!("{:?}", poll),
    }
    assert_eq!(first.woken.load(Ordering::SeqCst), 1);
    assert_eq!(second.woken.load(Ordering::SeqCst), 1);
}

#[test]
fn clock_stands_still_before_its_origin() {
    let late = std::time::Instant::now() + std::time::Duration::from_secs(1_000);
    assert_eq!(Clock::new(late).now(), point(0));
}
