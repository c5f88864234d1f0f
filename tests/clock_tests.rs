use solara::clock::{SimulationTime, DEFAULT_SPEED, MAX_SPEED, MIN_SPEED, NANODAYS_PER_DAY};

const SECOND: u64 = 1_000_000;

#[test]
fn simulation_pause_stops_time() {
    let mut time = SimulationTime::new();
    time.toggle_pause();
    time.advance(10 * SECOND);
    assert_eq!(time.current_nanodays, 0, "Time should not advance while paused");
}

#[test]
fn simulation_speed_multiplier() {
    let mut time = SimulationTime::new();
    time.set_speed(10_000);
    time.advance(SECOND);
    assert_eq!(time.current_nanodays, 10 * NANODAYS_PER_DAY, "10 days/sec × 1 sec = 10 days");
}

#[test]
fn simulation_speed_cannot_be_negative() {
    let mut time = SimulationTime::new();
    time.set_speed(-5_000);
    assert_eq!(time.speed, MIN_SPEED);
    assert!(time.speed > 0);
}

#[test]
fn simulation_default_speed() {
    let time = SimulationTime::new();
    assert_eq!(time.speed, DEFAULT_SPEED);
}

#[test]
fn fresh_clock_then_one_second_is_one_speed_worth() {
    let mut time = SimulationTime::new();
    assert_eq!(time.current_nanodays, 0);
    time.advance(SECOND);
    // one second at the default speed of one day per second
    assert_eq!(time.current_nanodays, NANODAYS_PER_DAY);
}

#[test]
fn unpause_resumes_from_where_time_stopped() {
    let mut time = SimulationTime::new();
    time.advance(SECOND / 2);
    time.toggle_pause();
    time.advance(5 * SECOND);
    assert_eq!(time.current_nanodays, NANODAYS_PER_DAY / 2);
    time.toggle_pause();
    time.advance(SECOND / 2);
    assert_eq!(time.current_nanodays, NANODAYS_PER_DAY);
}

#[test]
fn advance_saturates_instead_of_wrapping() {
    let mut time = SimulationTime::new();
    time.set_speed(MAX_SPEED as i64);
    time.advance(u64::MAX);
    assert_eq!(time.current_nanodays, u64::MAX);
}

#[test]
fn set_speed_clamps_high_and_keeps_in_range() {
    let mut time = SimulationTime::new();
    time.set_speed(1_000_000);
    assert_eq!(time.speed, MAX_SPEED);
    time.set_speed(2_500);
    assert_eq!(time.speed, 2_500);
    time.set_speed(0);
    assert_eq!(time.speed, MIN_SPEED);
}

#[test]
fn speed_up_walks_the_steps_and_stops_at_the_top() {
    let mut time = SimulationTime::new();
    let mut seen = vec![time.speed];
    for _ in 0..10 {
        time.speed_up();
        seen.push(time.speed);
    }
    assert_eq!(
        seen,
        vec![1000, 2000, 5000, 10_000, 50_000, 100_000, 100_000, 100_000, 100_000, 100_000, 100_000]
    );
}

#[test]
fn speed_down_walks_the_steps_and_stops_at_the_bottom() {
    let mut time = SimulationTime::new();
    for expected in [500, 100, 100] {
        time.speed_down();
        assert_eq!(time.speed, expected);
    }
}

#[test]
fn speed_steps_from_between_steps() {
    let mut time = SimulationTime::new();
    time.set_speed(3_000);
    time.speed_up();
    assert_eq!(time.speed, 5_000);
    time.set_speed(3_000);
    time.speed_down();
    assert_eq!(time.speed, 2_000);
}

#[test]
fn speed_label_whole_and_fractional() {
    let mut time = SimulationTime::new();
    assert_eq!(time.speed_label(), "×1");
    time.set_speed(10_000);
    assert_eq!(time.speed_label(), "×10");
    time.set_speed(100_000);
    assert_eq!(time.speed_label(), "×100");
    time.set_speed(500);
    assert_eq!(time.speed_label(), "×0.5");
    time.set_speed(100);
    assert_eq!(time.speed_label(), "×0.1");
    time.set_speed(1_234);
    assert_eq!(time.speed_label(), "×1.2");
    time.set_speed(1_250);
    assert_eq!(time.speed_label(), "×1.3");
}
