use game_time::framerate::{counter, sample};
use game_time::step::{ConstantStep, FixedStep, VariableStep};
use game_time::{FrameCount, GameClock, TimeDelta, TimeStep};

#[test]
fn test_fixed_step() {
    let mut clock = GameClock::new();
    let mut count =
        counter::FrameCounter::new(20_000, sample::RunningAverageSampler::with_max_samples(20));

    for _ in 0..20 {
        let time = {
            let step = FixedStep::new(&count);
            clock.tick(&step).unwrap()
        };
        count.tick(&time);
        assert_eq!(time.elapsed_game_time(), TimeDelta::milliseconds(50));
    }
    let time = clock.last_frame_time();
    assert_eq!(time.frame_game_time(), TimeDelta::seconds(1));
}

#[test]
fn test_null_step() {
    let mut clock = GameClock::new();
    let step = ConstantStep::null_step();

    for _ in 0..1000 {
        let time = clock.tick(&step).unwrap();
        assert_eq!(time.elapsed_game_time(), TimeDelta::zero());
    }

    assert_eq!(clock.last_frame_time().frame_game_time(), TimeDelta::zero());
}

#[test]
fn test_variable_step_returns_wall_time() {
    let step = VariableStep::new();
    let wall = TimeDelta::milliseconds(17);
    assert_eq!(step.time_step(&wall), wall);
    assert_eq!(step.time_step(&TimeDelta::nanoseconds(-5)), TimeDelta::nanoseconds(-5));
}

#[test]
fn test_constant_step_ignores_wall_time() {
    let step = ConstantStep::new(TimeDelta::milliseconds(16));
    assert_eq!(step.time_step(&TimeDelta::zero()), TimeDelta::milliseconds(16));
    assert_eq!(step.time_step(&TimeDelta::seconds(3)), TimeDelta::milliseconds(16));
}

#[test]
fn test_fixed_step_reads_target_period() {
    let count = counter::FrameCounter::new(20_000, sample::LinearAverageSampler::new());
    let step = FixedStep::new(&count);
    assert_eq!(step.time_step(&TimeDelta::seconds(9)), TimeDelta::milliseconds(50));
    assert_eq!(count.target_time_per_frame(), TimeDelta::milliseconds(50));
}
