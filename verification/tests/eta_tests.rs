use packet::utils::{estimate_text_with, unit_msgids, UnitMsgid};
use packet::utils::{breakdown_secs, format_time_left, DataTransferEta, TimeLeft, STEPS_TRACK_COUNT};
use std::time::{Duration, Instant};

#[test]
fn fresh_estimator_with_bytes_left_is_unknown() {
    let eta = DataTransferEta::new(1000);
    assert_eq!(eta.total_len(), 1000);
    assert_eq!(eta.time_left(), TimeLeft::Unknown);
    assert_eq!(eta.get_estimate_string(), "Unknown");
}

#[test]
fn fresh_estimator_with_nothing_to_move_says_zero_seconds() {
    let eta = DataTransferEta::new(0);
    assert_eq!(eta.time_left(), TimeLeft::Seconds { seconds: 0 });
    assert_eq!(eta.get_estimate_string(), "  0 seconds");
}

#[test]
fn first_step_only_marks_the_clock() {
    let mut eta = DataTransferEta::new(1000);
    eta.step_at(100, Instant::now(), 0);
    assert_eq!(eta.time_left(), TimeLeft::Unknown);
}

#[test]
fn a_whole_second_makes_a_sample() {
    let mut eta = DataTransferEta::new(1000);
    let t = Instant::now();
    eta.step_at(100, t, 0);
    eta.step_at(300, t, 1);
    // 700 bytes left at 300 bytes a second.
    assert_eq!(eta.time_left(), TimeLeft::Seconds { seconds: 2 });
    assert_eq!(eta.get_estimate_string(), "  2 seconds");
}

#[test]
fn less_than_a_second_makes_no_sample() {
    let mut eta = DataTransferEta::new(1000);
    let t = Instant::now();
    eta.step_at(100, t, 0);
    eta.step_at(300, t, 0);
    assert_eq!(eta.time_left(), TimeLeft::Unknown);
}

#[test]
fn speed_is_the_average_of_the_samples() {
    let mut eta = DataTransferEta::new(10_000);
    let t = Instant::now();
    eta.step_at(0, t, 0);
    eta.step_at(100, t, 1);
    eta.step_at(400, t, 1);
    // Samples 300 and 100: 200 bytes a second, 9600 left.
    assert_eq!(eta.time_left(), TimeLeft::Seconds { seconds: 48 });
}

#[test]
fn the_window_keeps_the_last_five_seconds() {
    assert_eq!(STEPS_TRACK_COUNT, 5);
    let mut eta = DataTransferEta::new(1_000_000);
    let t = Instant::now();
    eta.step_at(0, t, 0);
    // One slow second, then five fast ones: the slow one leaves the window.
    eta.step_at(1, t, 1);
    let mut done = 1usize;
    for _ in 0..5 {
        done += 1000;
        eta.step_at(done, t, 1);
    }
    // 1_000_000 - 5001 left at 1000 bytes a second.
    assert_eq!(eta.time_left(), breakdown_secs(994));
    assert_eq!(eta.time_left(), TimeLeft::Minutes { minutes: 16, seconds: 34 });
}

#[test]
fn done_transfer_says_zero_seconds() {
    let mut eta = DataTransferEta::new(500);
    let t = Instant::now();
    eta.step_at(0, t, 0);
    eta.step_at(500, t, 1);
    assert_eq!(eta.time_left(), TimeLeft::Seconds { seconds: 0 });
}

#[test]
fn step_with_reads_the_clock() {
    let mut eta = DataTransferEta::new(1000);
    eta.step_with(0);
    let start = Instant::now();
    while start.elapsed() < Duration::from_millis(1100) {}
    eta.step_with(500);
    // One sample of 500 bytes; 500 left.
    assert_eq!(eta.time_left(), TimeLeft::Seconds { seconds: 1 });
    assert_eq!(eta.get_estimate_string(), "  1 second");
}

#[test]
fn step_with_within_a_second_makes_no_sample() {
    let mut eta = DataTransferEta::new(1000);
    eta.step_with(0);
    eta.step_with(500);
    assert_eq!(eta.time_left(), TimeLeft::Unknown);
}

#[test]
fn prepare_for_new_transfer_starts_over() {
    let mut eta = DataTransferEta::new(1000);
    let t = Instant::now();
    eta.step_at(0, t, 0);
    eta.step_at(300, t, 1);
    eta.prepare_for_new_transfer(Some(50));
    assert_eq!(eta.total_len(), 50);
    assert_eq!(eta.time_left(), TimeLeft::Unknown);
    eta.prepare_for_new_transfer(None);
    assert_eq!(eta.total_len(), 50);
    assert!(eta.can_step_to(0));
}

#[test]
fn can_step_only_forward() {
    let mut eta = DataTransferEta::new(1000);
    eta.step_at(400, Instant::now(), 0);
    assert!(eta.can_step_to(400));
    assert!(eta.can_step_to(401));
    assert!(!eta.can_step_to(399));
}

#[test]
fn breakdown_boundaries() {
    assert_eq!(breakdown_secs(0), TimeLeft::Seconds { seconds: 0 });
    assert_eq!(breakdown_secs(100), TimeLeft::Seconds { seconds: 100 });
    assert_eq!(breakdown_secs(101), TimeLeft::Minutes { minutes: 1, seconds: 41 });
    assert_eq!(breakdown_secs(6000), TimeLeft::Minutes { minutes: 100, seconds: 0 });
    // Above 6000 seconds: whole hours and the seconds past them.
    assert_eq!(breakdown_secs(6001), TimeLeft::Hours { hours: 1, remainder: 2401 });
    assert_eq!(breakdown_secs(7200), TimeLeft::Hours { hours: 2, remainder: 0 });
}

#[test]
fn time_left_text_pads_like_the_format_string() {
    assert_eq!(format_time_left(TimeLeft::Unknown, "x", "y"), "Unknown");
    assert_eq!(format_time_left(TimeLeft::Seconds { seconds: 42 }, "seconds", ""), " 42 seconds");
    assert_eq!(format_time_left(TimeLeft::Seconds { seconds: 100 }, "seconds", ""), "100 seconds");
    assert_eq!(
        format_time_left(TimeLeft::Minutes { minutes: 1, seconds: 41 }, "minute", "seconds"),
        "  1 minute 41 seconds"
    );
    assert_eq!(
        format_time_left(TimeLeft::Hours { hours: 2, remainder: 5 }, "hours", "minutes"),
        "  2 hours  5 minutes"
    );
    assert_eq!(
        format_time_left(TimeLeft::Hours { hours: 1234, remainder: 3599 }, "hours", "minutes"),
        "1234 hours 3599 minutes"
    );
}

#[test]
fn estimate_string_in_minutes() {
    let mut eta = DataTransferEta::new(20_100);
    let t = Instant::now();
    eta.step_at(0, t, 0);
    eta.step_at(100, t, 1);
    // 20_000 left at 100 bytes a second: 200 seconds.
    assert_eq!(eta.time_left(), TimeLeft::Minutes { minutes: 3, seconds: 20 });
    assert_eq!(eta.get_estimate_string(), "  3 minutes 20 seconds");
}

#[test]
fn unit_words_are_asked_for_the_right_units() {
    let (a, b) = unit_msgids(TimeLeft::Hours { hours: 2, remainder: 5 });
    let a = a.unwrap();
    let b = b.unwrap();
    assert_eq!((a.msgid, a.plural, a.count), ("hour", "hours", 2));
    assert_eq!((b.msgid, b.plural, b.count), ("minute", "minutes", 5));
    let (a, b) = unit_msgids(TimeLeft::Seconds { seconds: 7 });
    assert_eq!(a.unwrap().msgid, "second");
    assert!(b.is_none());
    assert!(unit_msgids(TimeLeft::Unknown).0.is_none());
    let shout = |u: UnitMsgid| if u.count == 1 { u.msgid.to_uppercase() } else { u.plural.to_uppercase() };
    assert_eq!(
        estimate_text_with(TimeLeft::Minutes { minutes: 1, seconds: 30 }, &shout),
        "  1 MINUTE 30 SECONDS"
    );
}

#[test]
fn the_estimator_keeps_its_counts_together() {
    let mut eta = DataTransferEta::new(100);
    assert!(eta.is_wf());
    let t = Instant::now();
    eta.step_at(10, t, 0);
    for k in 1..8usize {
        eta.step_at(10 + k, t, 1);
        assert!(eta.is_wf());
    }
}
