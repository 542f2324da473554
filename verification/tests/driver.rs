use spin_on::noop_waker;
use spin_on::spin_for;
use spin_on::spin_on;
use spin_on::Countdown;
use spin_on::NeverDone;
use spin_on::Progress;
use spin_on::Ready;
use spin_on::ResumeContext;
use spin_on::Task;

#[test]
fn ready() {
    spin_on(Ready::new(()));
}

#[test]
fn count() {
    spin_on(Countdown::new(10));
}

#[test]
fn done_value_is_returned_untransformed() {
    assert_eq!(spin_on(Ready::new(42u64)), 42u64);
}

#[test]
fn immediate_done_is_a_single_check() {
    let mut t = Ready::new(7u32);
    let cx = ResumeContext::from_waker(noop_waker());
    assert!(matches!(t.check(&cx), Progress::Done(7)));
    // the value was handed out on the first check; later checks stay not-done
    assert!(matches!(t.check(&cx), Progress::Pending));
    assert!(matches!(t.check(&cx), Progress::Pending));
}

#[test]
fn countdown_reports_not_done_exactly_count_times() {
    let mut t = Countdown::new(3);
    let cx = ResumeContext::from_waker(noop_waker());
    for _ in 0..3 {
        assert!(matches!(t.check(&cx), Progress::Pending));
    }
    assert!(matches!(t.check(&cx), Progress::Done(())));
}

#[test]
fn countdown_of_ten_takes_eleven_checks() {
    let mut t = Countdown::new(10);
    let cx = ResumeContext::from_waker(noop_waker());
    let mut checks: u32 = 0;
    loop {
        checks += 1;
        if let Progress::Done(()) = t.check(&cx) {
            break;
        }
    }
    assert_eq!(checks, 11);
}

#[test]
fn countdown_of_zero_is_done_on_the_first_check() {
    let mut t = Countdown::new(0);
    let cx = ResumeContext::from_waker(noop_waker());
    assert!(matches!(t.check(&cx), Progress::Done(())));
}

#[test]
fn drive_is_deterministic_across_fresh_tasks() {
    assert_eq!(spin_on(Ready::new(9u8)), spin_on(Ready::new(9u8)));
    assert_eq!(spin_on(Countdown::new(4)), spin_on(Countdown::new(4)));
    assert_eq!(spin_on(Ready::new(-3i64)), spin_on(Ready::new(-3i64)));
}

#[test]
fn waker_ops_in_any_order_do_not_disturb_a_drive() {
    let w = noop_waker();
    let d = w.duplicate();
    d.wake_by_ref();
    d.duplicate().wake();
    w.wake_by_ref();
    w.duplicate().release();
    w.wake_by_ref();
    let cx = ResumeContext::from_waker(w.duplicate());
    cx.waker().wake_by_ref();
    cx.waker().duplicate().wake();
    // none of the calls above changes anything: a drive still completes
    assert_eq!(spin_on(Ready::new(5i32)), 5);
    w.release();
}

#[test]
fn noop_waker_is_always_the_same_singleton() {
    assert_eq!(noop_waker(), noop_waker());
    assert_eq!(noop_waker().duplicate(), noop_waker());
}

#[test]
fn context_wraps_exactly_the_given_waker() {
    let cx = ResumeContext::from_waker(noop_waker());
    assert_eq!(*cx.waker(), noop_waker());
}

#[test]
fn never_done_stays_pending_under_a_bounded_drive() {
    let mut t = NeverDone;
    assert!(matches!(spin_for(&mut t, 10_000), Progress::Pending));
    assert!(matches!(spin_for(&mut t, 1), Progress::Pending));
}

#[test]
fn bounded_drive_stops_early_on_done() {
    let mut t = Countdown::new(2);
    assert!(matches!(spin_for(&mut t, 100), Progress::Done(())));
    let mut u = Ready::new(8u16);
    assert!(matches!(spin_for(&mut u, 1), Progress::Done(8)));
}

#[test]
fn bounded_drive_resumes_where_it_left_off() {
    let mut t = Countdown::new(5);
    assert!(matches!(spin_for(&mut t, 2), Progress::Pending));
    assert_eq!(t.count, 3);
    assert!(matches!(spin_for(&mut t, 2), Progress::Pending));
    assert!(matches!(spin_for(&mut t, 2), Progress::Done(())));
}

#[test]
fn bounded_drive_of_zero_checks_reports_pending() {
    let mut t = Ready::new(1u8);
    assert!(matches!(spin_for(&mut t, 0), Progress::Pending));
    // nothing was checked: the value is still there for a real drive
    assert_eq!(spin_on(t), 1u8);
}
