use game_time::clock::MULTIPLIER_ONE;
use game_time::step::{ConstantStep, VariableStep};
use game_time::{DurationError, GameClock, GameClockBuilder, TimeDelta, WallInstant};

#[test]
fn test_clock_construct() {
    let clock = GameClock::new();
    assert_eq!(clock.clock_multiplier(), MULTIPLIER_ONE);
    assert_eq!(clock.last_frame_time().elapsed_game_time(), TimeDelta::zero());

    let clock2 = GameClockBuilder::new()
        .clock_multiplier(5 * MULTIPLIER_ONE)
        .start_frame(100)
        .build();

    assert_eq!(clock2.current_frame_number(), 100);
    assert_eq!(clock2.clock_multiplier(), 5 * MULTIPLIER_ONE);
    assert_eq!(clock2.last_frame_time().elapsed_game_time(), TimeDelta::zero());
    assert_eq!(clock2.last_frame_time().elapsed_wall_time(), TimeDelta::zero());
    assert!(clock2.last_frame_time().frame_wall_time() <= WallInstant::now());

    let start_time = WallInstant::from_nanos(1_500_000_000_000_000_000);
    let clock3 = GameClockBuilder::new()
        .start_game_time(TimeDelta::seconds(100))
        .start_wall_time(start_time)
        .build();

    assert_eq!(clock3.current_frame_number(), 0);
    assert_eq!(clock3.last_frame_time().frame_game_time(), TimeDelta::seconds(100));
    assert_eq!(clock3.last_frame_time().frame_wall_time(), start_time);

    assert_eq!(GameClock::default().current_frame_number(), 0);
    assert_eq!(
        GameClock::default().last_frame_time().frame_game_time(),
        TimeDelta::zero()
    );
}

#[test]
fn test_clock_tick() {
    let mut clock = GameClock::new();
    let time = clock.tick(&ConstantStep::new(TimeDelta::seconds(1))).unwrap();
    assert_eq!(time.frame_number(), 1);
    assert_eq!(time.frame_game_time(), TimeDelta::seconds(1));
    assert!(time.frame_wall_time() > clock.start_wall_time());
    assert!(time.frame_wall_time() < WallInstant::now());
    assert_eq!(time.elapsed_game_time(), TimeDelta::seconds(1));
    assert!(time.elapsed_wall_time() < TimeDelta::seconds(1));

    let time2 = clock.tick(&VariableStep::new()).unwrap();
    assert_eq!(time2.frame_number(), 2);
    assert!(time2.frame_wall_time() > time.frame_wall_time());
    assert_eq!(time2.elapsed_game_time(), time2.elapsed_wall_time());
    assert!(time2.frame_game_time() > time.frame_game_time());
}

#[test]
fn test_clock_tick_loop() {
    let dt = TimeDelta::milliseconds(50);
    let step = ConstantStep::new(dt);
    let mut clock = GameClock::default();

    for x in 0..10i64 {
        let frame_time = clock.tick(&step).unwrap();

        assert_eq!(frame_time.frame_number(), (x + 1) as u64);
        assert_eq!(frame_time.elapsed_game_time(), dt);
        assert_eq!(
            frame_time.frame_game_time(),
            TimeDelta::nanoseconds(50_000_000 * (x + 1))
        );
    }

    let frame_time = clock.last_frame_time();
    assert_eq!(frame_time.frame_game_time(), TimeDelta::milliseconds(500));
    assert!(frame_time.frame_wall_time() > clock.start_wall_time());
}

#[test]
fn test_clock_multiplier_scales_elapsed_game_time() {
    let mut clock = GameClockBuilder::new()
        .start_wall_time(WallInstant::from_nanos(0))
        .start_frame(100)
        .clock_multiplier(5 * MULTIPLIER_ONE)
        .build();

    let t: i64 = 12_345_678;
    let time = clock
        .tick_with_wall_time(&VariableStep::new(), WallInstant::from_nanos(t))
        .unwrap();

    assert_eq!(time.frame_number(), 101);
    assert_eq!(time.elapsed_wall_time(), TimeDelta::nanoseconds(t));
    assert_eq!(time.elapsed_game_time(), TimeDelta::nanoseconds(5 * t));
    assert_eq!(clock.current_frame_number(), 101);
}

#[test]
fn test_negative_multiplier_runs_time_backward() {
    let mut clock = GameClockBuilder::new()
        .start_wall_time(WallInstant::from_nanos(0))
        .clock_multiplier(-MULTIPLIER_ONE)
        .build();

    let time = clock
        .tick_with_wall_time(&VariableStep::new(), WallInstant::from_nanos(1_000_000))
        .unwrap();
    assert_eq!(time.elapsed_game_time(), TimeDelta::milliseconds(-1));
    assert_eq!(time.frame_game_time(), TimeDelta::milliseconds(-1));
}

#[test]
fn test_fractional_multiplier_rounds_toward_zero() {
    let mut clock = GameClockBuilder::new()
        .start_wall_time(WallInstant::from_nanos(0))
        .clock_multiplier(500)
        .build();

    let time = clock
        .tick_with_wall_time(&VariableStep::new(), WallInstant::from_nanos(5))
        .unwrap();
    assert_eq!(time.elapsed_game_time(), TimeDelta::nanoseconds(2));
}

#[test]
fn test_tick_out_of_range() {
    let mut clock = GameClockBuilder::new()
        .start_wall_time(WallInstant::from_nanos(0))
        .clock_multiplier(2 * MULTIPLIER_ONE)
        .build();

    let huge = ConstantStep::new(TimeDelta::nanoseconds(i64::MAX));
    let r = clock.tick_with_wall_time(&huge, WallInstant::from_nanos(1));
    assert_eq!(r.unwrap_err(), DurationError::OutOfRange);
    assert_eq!(clock.current_frame_number(), 0);
    assert_eq!(clock.last_frame_time().frame_game_time(), TimeDelta::zero());

    let mut clock2 = GameClockBuilder::new()
        .start_wall_time(WallInstant::from_nanos(0))
        .build();
    let big = ConstantStep::new(TimeDelta::nanoseconds(i64::MAX));
    assert!(clock2.tick_with_wall_time(&big, WallInstant::from_nanos(1)).is_ok());
    let r2 = clock2.tick_with_wall_time(&big, WallInstant::from_nanos(2));
    assert_eq!(r2.unwrap_err(), DurationError::OutOfRange);
    assert_eq!(clock2.current_frame_number(), 1);
}

#[test]
fn test_monotonic_source_gives_nonnegative_elapsed_wall() {
    let mut clock = GameClockBuilder::new()
        .start_wall_time(WallInstant::from_nanos(50))
        .build();
    let instants: [i64; 4] = [50, 51, 51, 1_000];
    for now in instants {
        let time = clock
            .tick_with_wall_time(&VariableStep::new(), WallInstant::from_nanos(now))
            .unwrap();
        assert!(time.elapsed_wall_time().nanos() >= 0);
    }
}

#[test]
fn test_duration_error_description() {
    assert_eq!(
        DurationError::OutOfRange.description(),
        "duration conversion out of range"
    );
}

#[test]
fn test_to_unsigned_nanos() {
    assert_eq!(TimeDelta::milliseconds(3).to_unsigned_nanos(), Ok(3_000_000));
    assert_eq!(
        TimeDelta::nanoseconds(-1).to_unsigned_nanos(),
        Err(DurationError::OutOfRange)
    );
}
