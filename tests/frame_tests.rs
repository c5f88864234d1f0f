use solara::frame::{fps_estimate, frame_delta, FIRST_FRAME_MICROS, MAX_FRAME_MICROS};
use solara::passes::{pass_order, PassKind};
use solara::trail::{fade_alpha, Trail};

#[test]
fn first_frame_uses_nominal_step() {
    assert_eq!(frame_delta(None, 123_456_789), FIRST_FRAME_MICROS);
}

#[test]
fn later_frames_use_elapsed_time_capped() {
    assert_eq!(frame_delta(Some(1_000_000), 1_016_667), 16_667);
    assert_eq!(frame_delta(Some(1_000_000), 9_000_000), MAX_FRAME_MICROS);
    assert_eq!(frame_delta(Some(1_000_000), 1_000_000), 0);
    assert_eq!(frame_delta(Some(2_000_000), 1_000_000), 0);
}

#[test]
fn fps_is_reciprocal_capped() {
    assert_eq!(fps_estimate(16_000), 62);
    assert_eq!(fps_estimate(100_000), 10);
    assert_eq!(fps_estimate(1), 1000);
    assert_eq!(fps_estimate(0), 0);
}

#[test]
fn passes_drawn_back_to_front() {
    assert_eq!(
        pass_order(),
        vec![PassKind::Starfield, PassKind::Orbit, PassKind::Trail, PassKind::Planet, PassKind::Ring]
    );
    assert!(!PassKind::Starfield.writes_depth());
    assert!(PassKind::Planet.writes_depth());
    assert!(!PassKind::Ring.culls_back_faces());
    assert!(PassKind::Orbit.culls_back_faces());
}

#[test]
fn trail_keeps_latest_points() {
    let mut t: Trail<u32> = Trail::new(3);
    assert_eq!(t.len(), 0);
    for p in 1..=5 {
        t.push(p);
    }
    assert_eq!(t.len(), 3);
    assert_eq!(t.capacity(), 3);
    assert_eq!((*t.get(0), *t.get(1), *t.get(2)), (3, 4, 5));
    t.clear();
    assert_eq!(t.len(), 0);
}

#[test]
fn trail_of_one() {
    let mut t: Trail<(i32, i32)> = Trail::new(1);
    t.push((1, 2));
    t.push((3, 4));
    assert_eq!(t.len(), 1);
    assert_eq!(*t.get(0), (3, 4));
}

#[test]
fn trail_fades_toward_oldest() {
    assert_eq!(fade_alpha(0, 4), 250);
    assert_eq!(fade_alpha(3, 4), 1000);
    assert_eq!(fade_alpha(0, 1), 1000);
}
