use solara::camera::{
    transition_fraction, Camera, DEFAULT_DISTANCE, DEFAULT_PHI, DEFAULT_THETA, MAX_DISTANCE,
    MIN_DISTANCE, PHI_LIMIT, SNAP_EPSILON,
};

#[test]
fn camera_defaults_from_constants() {
    let cam = Camera::new();
    assert_eq!(cam.theta, DEFAULT_THETA);
    assert_eq!(cam.phi, DEFAULT_PHI);
    assert_eq!(cam.distance, DEFAULT_DISTANCE);
    assert_eq!(cam.min_distance, MIN_DISTANCE);
    assert_eq!(cam.max_distance, MAX_DISTANCE);
}

#[test]
fn default_camera_values() {
    let cam = Camera::new();
    assert_eq!(cam.theta, 300_000);
    assert_eq!(cam.phi, 600_000);
    assert_eq!(cam.distance, 200_000);
    assert_eq!(cam.min_distance, 5_000);
    assert_eq!(cam.max_distance, 1_500_000);
    assert_eq!(cam.pending_distance, None);
    // the eye sits `distance` away from the target, well over one unit
    assert!(cam.distance > 1_000);
}

#[test]
fn camera_zoom_clamps() {
    let mut cam = Camera::new();
    for _ in 0..5000 {
        cam.zoom(-100);
    }
    assert!(cam.distance >= cam.min_distance, "Should not go below min distance");
    for _ in 0..5000 {
        cam.zoom(100);
    }
    assert!(cam.distance <= cam.max_distance, "Should not exceed max distance");
}

#[test]
fn zoom_extremes_hit_the_bounds_exactly() {
    let mut cam = Camera::new();
    for _ in 0..100 {
        cam.zoom(i64::MAX);
    }
    assert_eq!(cam.distance, MAX_DISTANCE);
    for _ in 0..100 {
        cam.zoom(i64::MIN);
    }
    assert_eq!(cam.distance, MIN_DISTANCE);
}

#[test]
fn zoom_scales_distance() {
    let mut cam = Camera::new();
    cam.zoom(100);
    assert_eq!(cam.distance, 220_000);
    cam.zoom(-500);
    assert_eq!(cam.distance, 110_000);
}

#[test]
fn camera_rotate_clamps_phi() {
    let mut cam = Camera::new();
    for _ in 0..10000 {
        cam.rotate(0, -10);
    }
    assert!(cam.phi >= -PHI_LIMIT);
    assert!(cam.phi <= PHI_LIMIT);
    assert_eq!(cam.phi, -PHI_LIMIT);
    for _ in 0..10000 {
        cam.rotate(0, 10);
    }
    assert_eq!(cam.phi, PHI_LIMIT);
}

#[test]
fn rotate_moves_both_angles() {
    let mut cam = Camera::new();
    cam.rotate(10, 20);
    assert_eq!(cam.theta, 300_000 - 50_000);
    assert_eq!(cam.phi, 600_000 + 100_000);
}

#[test]
fn rotate_huge_drag_saturates_theta() {
    let mut cam = Camera::new();
    cam.rotate(i64::MIN, i64::MAX);
    assert_eq!(cam.theta, i64::MAX);
    assert_eq!(cam.phi, PHI_LIMIT);
}

#[test]
fn top_down_looks_from_above() {
    let mut cam = Camera::new();
    cam.top_down();
    assert_eq!(cam.theta, 0);
    assert_eq!(cam.phi, PHI_LIMIT);
}

#[test]
fn set_target_distance_clamps_and_waits() {
    let mut cam = Camera::new();
    cam.set_target_distance(1);
    assert_eq!(cam.pending_distance, Some(MIN_DISTANCE));
    assert_eq!(cam.distance, DEFAULT_DISTANCE);
    cam.set_target_distance(10_000_000);
    assert_eq!(cam.pending_distance, Some(MAX_DISTANCE));
}

#[test]
fn transition_fraction_is_capped() {
    assert_eq!(transition_fraction(0), 0);
    assert_eq!(transition_fraction(100_000), 400_000);
    assert_eq!(transition_fraction(250_000), 1_000_000);
    assert_eq!(transition_fraction(10_000_000), 1_000_000);
}

#[test]
fn distance_transition_converges_and_ends() {
    let mut cam = Camera::new();
    cam.set_target_distance(100_000);
    cam.update_transition(100_000);
    // 40% of the 100_000 gap
    assert_eq!(cam.distance, 160_000);
    assert_eq!(cam.pending_distance, Some(100_000));
    let mut frames = 0;
    while cam.pending_distance.is_some() {
        cam.update_transition(16_000);
        frames += 1;
        assert!(frames < 10_000);
    }
    assert_eq!(cam.distance, 100_000);
}

#[test]
fn distance_transition_snaps_within_epsilon() {
    let mut cam = Camera::new();
    cam.set_target_distance(DEFAULT_DISTANCE + SNAP_EPSILON - 1);
    cam.update_transition(0);
    assert_eq!(cam.distance, DEFAULT_DISTANCE + SNAP_EPSILON - 1);
    assert_eq!(cam.pending_distance, None);
}

#[test]
fn idle_transition_changes_nothing() {
    let mut cam = Camera::new();
    let before = cam;
    cam.update_transition(50_000);
    assert_eq!(cam, before);
}

#[test]
fn focus_distance_keeps_a_floor() {
    let cam = Camera::new();
    assert_eq!(cam.focus_distance(1_000), 8_000);
    assert_eq!(cam.focus_distance(100), 7_500);
    assert_eq!(cam.focus_distance(i64::MAX), i64::MAX);
}
