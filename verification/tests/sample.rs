use game_time::framerate::counter;
use game_time::framerate::sample::{DEFAULT_NUM_SAMPLES, MILLIHERTZ_NANOS};
use game_time::framerate::{FrameRateSampler, LinearAverageSampler, RunningAverageSampler};
use game_time::step::{ConstantStep, VariableStep};
use game_time::{FrameCount, GameClock, GameClockBuilder, TimeDelta, WallInstant};

#[test]
fn test_linear_sampler() {
    let mut clock = GameClock::default();
    let step = ConstantStep::new(TimeDelta::milliseconds(50));
    let sampler = LinearAverageSampler::with_max_samples(10);
    let mut count = counter::FrameCounter::new(20_000, sampler);
    let start_time = clock.start_wall_time();
    let dt: i64 = 100_000_000;

    for i in 0..10i64 {
        assert!(!count.is_saturated());
        assert!(!count.sampler().is_saturated());
        let frame_time = WallInstant::from_nanos(start_time.nanos() + dt * (i + 1));
        let time = clock.tick_with_wall_time(&step, frame_time).unwrap();
        count.tick(&time);

        assert_eq!(count.average_frame_rate().millihertz(), 10_000);
        assert_eq!(count.target_frame_rate(), 20_000);
        assert!(count.is_running_slow(&time));
    }
    assert!(count.is_saturated());
    let time = clock
        .tick_with_wall_time(&step, WallInstant::from_nanos(start_time.nanos() + dt * 11))
        .unwrap();
    count.tick(&time);
    assert!(count.is_saturated());

    let sampler2 = LinearAverageSampler::default().clone();
    assert_eq!(sampler2.max_samples(), DEFAULT_NUM_SAMPLES);
}

#[test]
fn test_running_avg_sampler() {
    let mut clock = GameClock::default();
    let step = ConstantStep::new(TimeDelta::milliseconds(50));
    let sampler = RunningAverageSampler::with_max_samples(10);
    let mut count = counter::FrameCounter::new(20_000, sampler);
    let start_time = clock.start_wall_time();
    let dt: i64 = 100_000_000;

    for i in 0..10i64 {
        assert!(!count.is_saturated());
        assert!(!count.sampler().is_saturated());
        let frame_time = WallInstant::from_nanos(start_time.nanos() + dt * (i + 1));
        let time = clock.tick_with_wall_time(&step, frame_time).unwrap();
        count.tick(&time);

        assert_eq!(count.average_frame_rate().millihertz(), 10_000);
        assert_eq!(count.target_frame_rate(), 20_000);
        assert!(count.is_running_slow(&time));
    }
    assert!(count.is_saturated());
    let time = clock
        .tick_with_wall_time(&step, WallInstant::from_nanos(start_time.nanos() + dt * 11))
        .unwrap();
    count.tick(&time);
    assert!(count.is_saturated());

    let sampler2 = RunningAverageSampler::default().clone();
    assert_eq!(sampler2.max_samples(), DEFAULT_NUM_SAMPLES);
}

fn drive(clock: &mut GameClock, sampler: &mut impl FrameRateSampler, elapsed_nanos: i64) {
    let last = clock.last_frame_time().frame_wall_time().nanos();
    let time = clock
        .tick_with_wall_time(
            &VariableStep::new(),
            WallInstant::from_nanos(last + elapsed_nanos),
        )
        .unwrap();
    sampler.tick(&time);
}

#[test]
fn test_running_average_is_mean_before_saturation() {
    let mut clock = GameClockBuilder::new()
        .start_wall_time(WallInstant::from_nanos(0))
        .build();
    let mut sampler = RunningAverageSampler::with_max_samples(10);

    drive(&mut clock, &mut sampler, 100_000_000); // 10 Hz
    drive(&mut clock, &mut sampler, 50_000_000); // 20 Hz
    drive(&mut clock, &mut sampler, 200_000_000); // 5 Hz

    let avg = sampler.average_frame_rate();
    assert_eq!(avg.num, 35_000);
    assert_eq!(avg.den, 3);
    assert!(!sampler.is_saturated());
}

#[test]
fn test_running_average_decays_once_saturated() {
    let mut clock = GameClockBuilder::new()
        .start_wall_time(WallInstant::from_nanos(0))
        .build();
    let mut sampler = RunningAverageSampler::with_max_samples(2);

    drive(&mut clock, &mut sampler, 100_000_000); // 10 Hz
    drive(&mut clock, &mut sampler, 100_000_000); // 10 Hz
    assert!(sampler.is_saturated());
    assert_eq!(sampler.average_frame_rate().millihertz(), 10_000);

    // (avg * (max - 1) + rate) / max == (10 Hz + 40 Hz) / 2 == 25 Hz
    drive(&mut clock, &mut sampler, 25_000_000); // 40 Hz
    assert!(sampler.is_saturated());
    let avg = sampler.average_frame_rate();
    assert_eq!(avg.num, 50_000);
    assert_eq!(avg.den, 2);
    assert_eq!(avg.millihertz(), 25_000);
}

#[test]
fn test_linear_average_evicts_oldest() {
    let mut clock = GameClockBuilder::new()
        .start_wall_time(WallInstant::from_nanos(0))
        .build();
    let mut sampler = LinearAverageSampler::with_max_samples(3);

    drive(&mut clock, &mut sampler, 100_000_000); // 10 Hz
    drive(&mut clock, &mut sampler, 50_000_000); // 20 Hz
    drive(&mut clock, &mut sampler, 200_000_000); // 5 Hz
    assert!(sampler.is_saturated());
    let avg = sampler.average_frame_rate();
    assert_eq!(avg.num, 35_000);
    assert_eq!(avg.den, 3);

    // The fourth reading evicts the oldest: the window is now 20, 5, 10 Hz.
    drive(&mut clock, &mut sampler, 100_000_000); // 10 Hz
    let avg = sampler.average_frame_rate();
    assert_eq!(avg.num, 35_000);
    assert_eq!(avg.den, 3);

    // And the fifth evicts the 20 Hz reading: the window is 5, 10, 40 Hz.
    drive(&mut clock, &mut sampler, 25_000_000); // 40 Hz
    let avg = sampler.average_frame_rate();
    assert_eq!(avg.num, 55_000);
    assert_eq!(avg.den, 3);
}

#[test]
fn test_running_average_single_sample_tracks_latest() {
    // With a capacity of one the decaying filter reduces to the most
    // recent rate: (avg * 0 + rate) / 1 == rate.
    let mut clock = GameClockBuilder::new()
        .start_wall_time(WallInstant::from_nanos(0))
        .build();
    let mut sampler = RunningAverageSampler::with_max_samples(1);

    drive(&mut clock, &mut sampler, 100_000_000); // 10 Hz
    assert!(sampler.is_saturated());
    assert_eq!(sampler.average_frame_rate().millihertz(), 10_000);

    drive(&mut clock, &mut sampler, 25_000_000); // 40 Hz
    assert_eq!(sampler.average_frame_rate().millihertz(), 40_000);
}

#[test]
fn test_empty_sampler_average_is_zero() {
    let running = RunningAverageSampler::with_max_samples(4);
    let avg = running.average_frame_rate();
    assert_eq!(avg.num, 0);
    assert_eq!(avg.den, 1);
    assert_eq!(avg.millihertz(), 0);

    let linear = LinearAverageSampler::with_max_samples(4);
    let avg = linear.average_frame_rate();
    assert_eq!(avg.num, 0);
    assert_eq!(avg.den, 1);
    assert_eq!(avg.millihertz(), 0);
}

#[test]
fn test_zero_elapsed_rate_is_zero() {
    let mut clock = GameClockBuilder::new()
        .start_wall_time(WallInstant::from_nanos(0))
        .build();
    let mut sampler = LinearAverageSampler::with_max_samples(2);
    drive(&mut clock, &mut sampler, 0);
    let avg = sampler.average_frame_rate();
    assert_eq!(avg.num, 0);
    assert_eq!(avg.den, 1);
}

#[test]
fn test_instantaneous_frame_rate() {
    let mut clock = GameClockBuilder::new()
        .start_wall_time(WallInstant::from_nanos(0))
        .build();
    let time = clock
        .tick_with_wall_time(
            &ConstantStep::new(TimeDelta::milliseconds(100)),
            WallInstant::from_nanos(1),
        )
        .unwrap();
    // 1 / 0.1 s == 10 Hz, counted in millihertz.
    assert_eq!(time.instantaneous_frame_rate(), 10_000);
    assert_eq!(MILLIHERTZ_NANOS / 100_000_000, 10_000);
}

#[test]
fn test_pacing_scenario() {
    // A 20 fps target gives a 50 ms period; ten 100 ms frames average
    // out to 10 fps, and every one of them runs slow.
    let mut clock = GameClockBuilder::new()
        .start_wall_time(WallInstant::from_nanos(0))
        .build();
    let mut count = counter::FrameCounter::new(20_000, LinearAverageSampler::with_max_samples(10));
    assert_eq!(count.target_time_per_frame(), TimeDelta::milliseconds(50));

    for i in 0..10i64 {
        let time = clock
            .tick_with_wall_time(
                &VariableStep::new(),
                WallInstant::from_nanos(100_000_000 * (i + 1)),
            )
            .unwrap();
        count.tick(&time);
        assert!(count.is_running_slow(&time));
    }
    assert!(count.is_saturated());
    let avg = count.average_frame_rate();
    assert_eq!(avg.num, 100_000);
    assert_eq!(avg.den, 10);
    assert_eq!(avg.millihertz(), 10_000);
}

#[test]
fn test_slow_threshold_boundary() {
    // With a 50 ms period and the default 0.95 threshold, a frame is
    // slow exactly when 50 ms * 1000 <= elapsed * 950.
    let mut count = counter::FrameCounter::new(20_000, LinearAverageSampler::new());
    let mut clock = GameClockBuilder::new()
        .start_wall_time(WallInstant::from_nanos(0))
        .build();

    // 52_631_578 * 950 == 49_999_999_100 < 50_000_000_000: not slow.
    let time = clock
        .tick_with_wall_time(&VariableStep::new(), WallInstant::from_nanos(52_631_578))
        .unwrap();
    assert!(!count.is_running_slow(&time));

    // 52_631_579 * 950 == 50_000_000_050 >= 50_000_000_000: slow.
    let time = clock
        .tick_with_wall_time(
            &VariableStep::new(),
            WallInstant::from_nanos(52_631_578 + 52_631_579),
        )
        .unwrap();
    assert!(count.is_running_slow(&time));

    count.set_slow_threshold(1000);
    assert_eq!(count.slow_threshold(), 1000);
    count.set_target_frame_rate(1_000);
    assert_eq!(count.target_frame_rate(), 1_000);
    assert_eq!(count.target_time_per_frame(), TimeDelta::seconds(1));
}
