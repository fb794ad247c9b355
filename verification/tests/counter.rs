use oxids::counter::{after_poll, to_nanos, Counter, NANOS_PER_SEC};

#[test]
fn clock_readings_become_nanoseconds() {
    assert_eq!(to_nanos(Ok((2, 5))), 2_000_000_005);
    assert_eq!(to_nanos(Err((2, 5))), -2_000_000_005);
    assert_eq!(to_nanos(Ok((u64::MAX, 999_999_999))), 18_446_744_073_709_551_615_999_999_999);
}

#[test]
fn counters_start_at_zero_and_now() {
    let counter = Counter::new("USB".to_string());
    assert_eq!(counter.name, "USB");
    assert_eq!(counter.current_frames, 0);
    // The start of 2020.
    assert!(counter.start_time > 1_577_836_800 * NANOS_PER_SEC);
}

#[test]
fn counts_one_frame_at_a_time() {
    let mut counter = Counter::starting_at("USB".to_string(), 7);
    counter.increment_frame();
    counter.increment_frame();
    assert_eq!(counter.current_frames, 2);
    assert_eq!(counter.start_time, 7);
}

#[test]
fn reports_after_more_than_a_second() {
    let mut counter = Counter::starting_at("USB".to_string(), 1000);
    for i in 0..59 {
        assert_eq!(counter.update(1000 + i), None);
    }
    assert_eq!(counter.update(1000 + NANOS_PER_SEC), None);
    assert_eq!(counter.current_frames, 60);
    assert_eq!(
        counter.update(1001 + NANOS_PER_SEC),
        Some("USB frames/second: 60".to_string())
    );
    assert_eq!(counter.current_frames, 1);
    assert_eq!(counter.start_time, 1001 + NANOS_PER_SEC);
    assert_eq!(
        counter.update(1002 + 2 * NANOS_PER_SEC),
        Some("USB frames/second: 1".to_string())
    );
}

#[test]
fn reports_any_count() {
    for frames in [0, 9, 10, 1234567890, i32::MAX, -1, -120, i32::MIN] {
        let mut counter = Counter::starting_at("n".to_string(), 0);
        counter.current_frames = frames;
        assert_eq!(counter.update(2 * NANOS_PER_SEC), Some(format!("n frames/second: {}", frames)));
    }
}

#[test]
fn a_clock_that_goes_back_reports_nothing() {
    let mut counter = Counter::starting_at("n".to_string(), 0);
    assert_eq!(counter.update(i128::MIN), None);
    assert_eq!((counter.start_time, counter.current_frames), (0, 1));
}

#[test]
fn every_frame_is_counted_once() {
    let mut counter = Counter::starting_at("n".to_string(), 0);
    let mut reported = 0;
    for i in 0..1000 {
        if let Some(line) = counter.update(i * 7_000_000) {
            reported += line["n frames/second: ".len()..].parse::<i32>().unwrap();
        }
    }
    assert_eq!(reported + counter.current_frames, 1000);
    assert!(reported > 0);
}

#[test]
fn the_system_clock_drives_the_count() {
    let mut counter = Counter::new("n".to_string());
    counter.start_time -= 5 * NANOS_PER_SEC;
    counter.current_frames = 3;
    assert_eq!(counter.maybe_print_fps(), Some("n frames/second: 3".to_string()));
    counter.start_time += 1_000_000 * NANOS_PER_SEC;
    assert_eq!(counter.maybe_print_fps(), None);
    assert_eq!(counter.current_frames, 2);
}

#[test]
fn pauses_after_too_many_polls() {
    let mut polls = Counter::new("USB".to_string());
    polls.start_time += 1_000_000 * NANOS_PER_SEC;
    for _ in 0..70 {
        assert_eq!(after_poll(&mut polls, 1).cooldown_ms, None);
    }
    assert_eq!(after_poll(&mut polls, 1).cooldown_ms, Some(300));
    assert_eq!(polls.current_frames, 71);
}

#[test]
fn polls_are_counted_in_debug_mode_only() {
    let mut polls = Counter::starting_at("USB".to_string(), 0);
    for _ in 0..100 {
        let outcome = after_poll(&mut polls, 0);
        assert_eq!(outcome.report, None);
        assert_eq!(outcome.cooldown_ms, None);
    }
    assert_eq!((polls.start_time, polls.current_frames), (0, 0));
    assert_eq!(after_poll(&mut polls, 2).report, Some("USB frames/second: 0".to_string()));
}
