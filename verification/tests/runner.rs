use game_time::clock::sleep_request;
use game_time::framerate::{counter, sample};
use game_time::step::{ConstantStep, VariableStep};
use game_time::{FrameCount, FrameRunner, GameClock, GameClockBuilder, TimeDelta, WallInstant};

#[test]
fn test_runner() {
    let clock = GameClock::new();
    let count =
        counter::FrameCounter::new(20_000, sample::RunningAverageSampler::with_max_samples(20));

    let mut runner = FrameRunner::new(clock, count);

    for i in 0..10i64 {
        runner
            .do_frame(
                &ConstantStep::new(TimeDelta::milliseconds(25)),
                |time| {
                    assert_eq!(time.elapsed_game_time(), TimeDelta::milliseconds(25));
                    assert_eq!(time.frame_game_time(), TimeDelta::milliseconds(25 * (i + 1)));
                },
                |_remaining| {},
            )
            .unwrap();
    }
}

#[test]
fn test_runner_tick_updates_clock_and_counter() {
    let clock = GameClockBuilder::new()
        .start_wall_time(WallInstant::from_nanos(0))
        .build();
    let count = counter::FrameCounter::new(20_000, sample::LinearAverageSampler::with_max_samples(4));
    let mut runner = FrameRunner::new(clock, count);

    for i in 0..4i64 {
        let time = runner
            .tick_with_wall_time(&VariableStep::new(), WallInstant::from_nanos(100_000_000 * (i + 1)))
            .unwrap();
        assert_eq!(time.frame_number(), (i + 1) as u64);
        assert_eq!(time.elapsed_wall_time(), TimeDelta::milliseconds(100));
    }
    assert_eq!(runner.clock().current_frame_number(), 4);
    assert!(runner.counter().is_saturated());
    let avg = runner.counter_mut().average_frame_rate();
    assert_eq!(avg.millihertz(), 10_000);
    runner.clock_mut().set_clock_multiplier(2_000);
    assert_eq!(runner.clock().clock_multiplier(), 2_000);
}

#[test]
fn test_sleep_request_values() {
    let some = sleep_request(&TimeDelta::milliseconds(50), &TimeDelta::milliseconds(20));
    assert_eq!(some, Some(TimeDelta::milliseconds(30)));

    let exact = sleep_request(&TimeDelta::milliseconds(50), &TimeDelta::milliseconds(50));
    assert_eq!(exact, Some(TimeDelta::zero()));

    let none = sleep_request(&TimeDelta::milliseconds(50), &TimeDelta::milliseconds(70));
    assert_eq!(none, None);
}

#[test]
fn test_sleep_remaining_via_skips_overrun_frames() {
    // The frame started at the epoch, so far longer than the 1 ns target
    // period has elapsed: the sleep action must not run.
    let mut clock = GameClockBuilder::new()
        .start_wall_time(WallInstant::from_nanos(0))
        .build();
    let count = counter::FrameCounter::new(1_000_000_000_000, sample::LinearAverageSampler::new());
    let mut called = false;
    clock.sleep_remaining_via(&count, |_d| called = true);
    assert!(!called);
}

#[test]
fn test_sleep_remaining_via_requests_remaining_time() {
    // The frame "starts" far in the future, so the whole period (and
    // more) remains: the sleep action receives a positive duration.
    let far_future: i64 = WallInstant::now().nanos() + 1_000_000_000_000;
    let mut clock = GameClockBuilder::new()
        .start_wall_time(WallInstant::from_nanos(far_future))
        .build();
    let count = counter::FrameCounter::new(20_000, sample::LinearAverageSampler::new());
    let mut requested: Option<TimeDelta> = None;
    clock.sleep_remaining_via(&count, |d| requested = Some(d));
    let d = requested.expect("a frame with time to spare requests a sleep");
    assert!(d.nanos() > 0);
}
