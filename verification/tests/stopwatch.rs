//! Tests drive the stopwatch with simulated counter readings, so every
//! scenario is deterministic: a reading is just the `Ok` counter value (or
//! the `Err` platform code) that the counter source would have produced.

use stopwatch::{Error, Stopwatch, StopwatchState, Syscall};

#[test]
fn lifecycle() {
    let mut sw = Stopwatch::start(Ok(10_000_000), Ok(0)).unwrap();
    sw.pause(Ok(5)).unwrap();
    sw.resume(Ok(9)).unwrap();
    sw.stop(Ok(20)).unwrap();
}

#[test]
fn readme() {
    let mut num: u64 = 0;
    let mut stopwatch = Stopwatch::start(Ok(1_000_000), Ok(100)).unwrap();
    for i in 0u64..10000 {
        num += i;
    }
    stopwatch.stop(Ok(10_100)).unwrap();
    assert!(num > 0);
}

#[test]
fn plain_measurement() {
    let mut sw = Stopwatch::start(Ok(3), Ok(1_000)).unwrap();
    sw.stop(Ok(4_000)).unwrap();
    assert_eq!(sw.elapsed_ticks(), 3_000);
    assert_eq!(sw.elasped_nano(), 1_000_000_000_000);
    assert_eq!(sw.elapsed_micro(), 1_000_000_000);
    assert_eq!(sw.elapsed_milli(), 1_000_000);
    assert_eq!(sw.elapsed_seconds(), 1_000);
}

#[test]
fn zero_elapsed() {
    let mut sw = Stopwatch::start(Ok(10), Ok(42)).unwrap();
    sw.stop(Ok(42)).unwrap();
    assert_eq!(sw.elapsed_ticks(), 0);
    assert_eq!(sw.elasped_nano(), 0);
    assert_eq!(sw.elapsed_micro(), 0);
    assert_eq!(sw.elapsed_milli(), 0);
    assert_eq!(sw.elapsed_seconds(), 0);
}

#[test]
fn stop_idempotent() {
    let mut sw = Stopwatch::start(Ok(10), Ok(100)).unwrap();
    sw.stop(Ok(350)).unwrap();
    let first: i64 = sw.elapsed_ticks();
    sw.stop(Ok(9_999)).unwrap();
    assert_eq!(sw.elapsed_ticks(), first);
    assert_eq!(sw.elapsed_ticks(), 250);
}

#[test]
fn pause_excluded() {
    let mut sw = Stopwatch::start(Ok(10), Ok(100)).unwrap();
    sw.pause(Ok(600)).unwrap();
    sw.resume(Ok(850)).unwrap();
    sw.stop(Ok(1_100)).unwrap();
    // 1100 - 100 elapsed in all, of which 850 - 600 was spent paused.
    assert_eq!(sw.elapsed_ticks(), 750);
}

#[test]
fn double_pause_is_noop() {
    let mut sw = Stopwatch::start(Ok(10), Ok(100)).unwrap();
    sw.pause(Ok(200)).unwrap();
    // Already paused: the reading is not consulted, so even a failed one
    // does not disturb the stopwatch.
    sw.pause(Err(31)).unwrap();
    sw.resume(Ok(300)).unwrap();
    sw.stop(Ok(400)).unwrap();
    assert_eq!(sw.elapsed_ticks(), 200);
}

#[test]
fn resume_while_running_reads_anyway() {
    let mut sw = Stopwatch::start(Ok(10), Ok(100)).unwrap();
    // Not paused, so nothing changes — but resume still consults the
    // reading, and a failed one is reported.
    assert_eq!(sw.resume(Ok(150)), Ok(()));
    assert_eq!(
        sw.resume(Err(6)),
        Err(Error::System { syscall: Syscall::QueryCounter, code: 6 })
    );
    sw.stop(Ok(400)).unwrap();
    assert_eq!(sw.elapsed_ticks(), 300);
}

#[test]
fn truncation_chain() {
    // 9999 ticks at 7 ticks per second: every division truncates, and each
    // coarser unit is derived from the already-truncated finer one.
    let mut sw = Stopwatch::start(Ok(7), Ok(0)).unwrap();
    sw.stop(Ok(9_999)).unwrap();
    assert_eq!(sw.elasped_nano(), 1_428_428_571_428);
    assert_eq!(sw.elapsed_micro(), 1_428_428_571);
    assert_eq!(sw.elapsed_milli(), 1_428_428);
    assert_eq!(sw.elapsed_seconds(), 1_428);
}

#[test]
fn stop_while_paused_freezes() {
    let mut sw = Stopwatch::start(Ok(10), Ok(100)).unwrap();
    sw.pause(Ok(400)).unwrap();
    // Stopping while paused needs no counter reading and freezes the
    // measurement at the pause point.
    sw.stop(Ok(0)).unwrap();
    assert_eq!(sw.state(), StopwatchState::Stopped);
    assert_eq!(sw.elapsed_ticks(), 300);
    // Simulated time keeps passing; nothing moves the frozen measurement.
    sw.pause(Ok(5_000)).unwrap();
    sw.resume(Ok(6_000)).unwrap();
    sw.stop(Ok(7_000)).unwrap();
    assert_eq!(sw.elapsed_ticks(), 300);
    assert_eq!(sw.elasped_nano(), 30_000_000_000);
    assert_eq!(sw.elapsed_micro(), 30_000_000);
    assert_eq!(sw.elapsed_milli(), 30_000);
    assert_eq!(sw.elapsed_seconds(), 30);
}

#[test]
fn busy_loop_scenario() {
    let mut counter: i64 = 1_000;
    let mut sw = Stopwatch::start(Ok(1_000_000), Ok(counter)).unwrap();
    for _ in 0u64..10000 {
        counter += 1;
    }
    sw.stop(Ok(counter)).unwrap();
    assert!(sw.elapsed_ticks() >= 0);
    assert_eq!(sw.elapsed_ticks(), 10_000);
    assert!(sw.elapsed_milli() >= 0);
    assert_eq!(sw.elapsed_seconds(), sw.elapsed_milli() / 1000);
}

#[test]
fn instant_pause_resume() {
    let mut paused = Stopwatch::start(Ok(7), Ok(50)).unwrap();
    paused.pause(Ok(80)).unwrap();
    paused.resume(Ok(80)).unwrap();
    paused.stop(Ok(130)).unwrap();

    let mut plain = Stopwatch::start(Ok(7), Ok(50)).unwrap();
    plain.stop(Ok(130)).unwrap();

    // No time passed between pause and resume, so nothing was excluded.
    assert_eq!(paused.elapsed_ticks(), plain.elapsed_ticks());
    assert_eq!(paused.elapsed_ticks(), 80);
}

#[test]
fn start_frequency_failure() {
    let r = Stopwatch::start(Err(5), Ok(0));
    match r {
        Err(e) => assert_eq!(e, Error::System { syscall: Syscall::QueryFrequency, code: 5 }),
        Ok(_) => panic!("a failed frequency query must fail the start"),
    }
}

#[test]
fn start_counter_failure() {
    let r = Stopwatch::start(Ok(10), Err(87));
    match r {
        Err(e) => assert_eq!(e, Error::System { syscall: Syscall::QueryCounter, code: 87 }),
        Ok(_) => panic!("a failed counter query must fail the start"),
    }
}

#[test]
fn pause_failure_changes_nothing() {
    let mut sw = Stopwatch::start(Ok(10), Ok(100)).unwrap();
    assert_eq!(
        sw.pause(Err(1)),
        Err(Error::System { syscall: Syscall::QueryCounter, code: 1 })
    );
    assert_eq!(sw.state(), StopwatchState::Running);
    sw.stop(Ok(400)).unwrap();
    assert_eq!(sw.elapsed_ticks(), 300);
}

#[test]
fn resume_failure_changes_nothing() {
    let mut sw = Stopwatch::start(Ok(10), Ok(100)).unwrap();
    sw.pause(Ok(200)).unwrap();
    assert_eq!(
        sw.resume(Err(2)),
        Err(Error::System { syscall: Syscall::QueryCounter, code: 2 })
    );
    assert_eq!(sw.state(), StopwatchState::Paused);
    sw.resume(Ok(250)).unwrap();
    sw.stop(Ok(400)).unwrap();
    assert_eq!(sw.elapsed_ticks(), 250);
}

#[test]
fn stop_failure_changes_nothing() {
    let mut sw = Stopwatch::start(Ok(10), Ok(100)).unwrap();
    assert_eq!(
        sw.stop(Err(3)),
        Err(Error::System { syscall: Syscall::QueryCounter, code: 3 })
    );
    assert_eq!(sw.state(), StopwatchState::Running);
    sw.stop(Ok(500)).unwrap();
    assert_eq!(sw.elapsed_ticks(), 400);
}

#[test]
fn state_and_frequency_accessors() {
    let mut sw = Stopwatch::start(Ok(2_500_000), Ok(10)).unwrap();
    assert_eq!(sw.frequency(), 2_500_000);
    assert_eq!(sw.state(), StopwatchState::Running);
    sw.pause(Ok(20)).unwrap();
    assert_eq!(sw.state(), StopwatchState::Paused);
    sw.resume(Ok(30)).unwrap();
    assert_eq!(sw.state(), StopwatchState::Running);
    sw.stop(Ok(40)).unwrap();
    assert_eq!(sw.state(), StopwatchState::Stopped);
}

#[test]
fn accepts_reading_orders_readings() {
    let mut sw = Stopwatch::start(Ok(10), Ok(100)).unwrap();
    assert!(sw.accepts_reading(100));
    assert!(!sw.accepts_reading(99));
    sw.pause(Ok(200)).unwrap();
    sw.resume(Ok(260)).unwrap();
    // 60 ticks are accounted as paused: readings from 160 on are in order.
    assert!(sw.accepts_reading(260));
    assert!(sw.accepts_reading(200));
    assert!(!sw.accepts_reading(159));
}

#[test]
fn conversions_fit_bounds_the_scaling() {
    let mut small = Stopwatch::start(Ok(10), Ok(0)).unwrap();
    small.stop(Ok(9_223_372_036)).unwrap();
    assert!(small.conversions_fit());

    let mut large = Stopwatch::start(Ok(10), Ok(0)).unwrap();
    large.stop(Ok(9_223_372_037)).unwrap();
    assert!(!large.conversions_fit());
}
