use solara::catalog::{catalog_flags, create_solar_system};
use solara::bodies::BodyFlags;
use solara::camera::{DEFAULT_DISTANCE, PHI_LIMIT};
use solara::clock::{DEFAULT_SPEED, NANODAYS_PER_DAY};
use solara::controls::{Controls, Effect};
use solara::keys::{command_for_key, Command};
use solara::selection::SelectionChange;

fn catalog() -> Vec<BodyFlags> {
    catalog_flags(&create_solar_system())
}

fn radii() -> Vec<i64> {
    vec![3_000, 547, 1_022, 1_043, 842, 2_275, 2_212, 1_923, 1_910]
}

#[test]
fn simulation_advances_time() {
    let mut c = Controls::new();
    assert_eq!(c.time.current_nanodays, 0);
    c.tick(1_000_000, &catalog());
    assert!(c.time.current_nanodays > 0);
}

#[test]
fn pause_key_then_ticks_hold_time() {
    let mut c = Controls::new();
    assert_eq!(c.on_key(Command::TogglePause, &radii()), Effect::Telemetry);
    for _ in 0..10 {
        c.tick(16_000, &catalog());
    }
    assert_eq!(c.time.current_nanodays, 0);
}

#[test]
fn speed_keys_and_reset() {
    let mut c = Controls::new();
    c.on_key(Command::SpeedUp, &radii());
    c.on_key(Command::SpeedUp, &radii());
    assert_eq!(c.time.speed, 5_000);
    c.on_key(Command::SpeedDown, &radii());
    assert_eq!(c.time.speed, 2_000);
    c.on_key(Command::TogglePause, &radii());
    assert_eq!(c.on_key(Command::ResetSpeed, &radii()), Effect::Telemetry);
    assert_eq!(c.time.speed, DEFAULT_SPEED);
    assert!(!c.time.paused);
}

#[test]
fn pick_earth_selects_it_unlocked() {
    let mut c = Controls::new();
    let effect = c.on_click(Some(3), &radii());
    assert_eq!(effect, Effect::Selection(SelectionChange::Selected(3)));
    assert_eq!(c.selection.selected, Some(3));
    assert!(!c.selection.locked);
    // the camera heads for 8 radii of the body
    assert_eq!(c.camera.pending_distance, Some(8_344));
    assert_eq!(c.camera.distance, DEFAULT_DISTANCE);
}

#[test]
fn locked_camera_tracks_selected_body_each_frame() {
    let bodies = catalog();
    let mut c = Controls::new();
    c.on_click(Some(3), &radii());
    assert_eq!(c.on_double_click(None, &radii()), Effect::Selection(SelectionChange::LockChanged(true)));
    for frame in 1..=5u64 {
        let update = c.tick(16_000, &bodies);
        assert_eq!(update.follow, Some(3));
        assert_eq!(c.time.current_nanodays, frame * 16_000 * 1_000);
    }
    c.on_double_click(None, &radii());
    assert_eq!(c.tick(16_000, &bodies).follow, Some(0));
}

#[test]
fn unlocked_camera_follows_the_star() {
    let mut c = Controls::new();
    c.on_click(Some(5), &radii());
    let update = c.tick(16_000, &catalog());
    assert_eq!(update.follow, Some(0));
    assert_eq!(update.transition_fraction, 64_000);
    assert_eq!(update.fps, 62);
}

#[test]
fn click_on_empty_space_returns_to_overview() {
    let mut c = Controls::new();
    c.on_double_click(Some(4), &radii());
    assert!(c.selection.locked);
    assert_eq!(c.on_click(None, &radii()), Effect::Selection(SelectionChange::Deselected));
    assert_eq!(c.selection.selected, None);
    assert!(!c.selection.locked);
    assert_eq!(c.camera.pending_distance, Some(DEFAULT_DISTANCE));
}

#[test]
fn digit_and_escape_keys() {
    let mut c = Controls::new();
    let cmd = command_for_key("3").unwrap();
    assert_eq!(c.on_key(cmd, &radii()), Effect::Selection(SelectionChange::Selected(3)));
    assert_eq!(c.on_key(cmd, &radii()), Effect::Selection(SelectionChange::Unchanged));
    let esc = command_for_key("Escape").unwrap();
    assert_eq!(c.on_key(esc, &radii()), Effect::Selection(SelectionChange::Deselected));
    assert_eq!(c.selection.selected, None);
}

#[test]
fn digit_beyond_catalog_is_ignored() {
    let mut c = Controls::new();
    let before = c;
    assert_eq!(c.on_key(Command::SelectBody(8), &radii()[..4]), Effect::Selection(SelectionChange::Unchanged));
    assert_eq!(c, before);
}

#[test]
fn top_down_and_hud_keys() {
    let mut c = Controls::new();
    assert_eq!(c.on_key(Command::TopDown, &radii()), Effect::ViewChanged);
    assert_eq!(c.camera.phi, PHI_LIMIT);
    assert_eq!(c.camera.theta, 0);
    let before = c;
    assert_eq!(c.on_key(Command::ToggleHud, &radii()), Effect::ToggleHud);
    assert_eq!(c, before);
}

#[test]
fn drag_and_zoom_stay_bounded() {
    let mut c = Controls::new();
    for _ in 0..1000 {
        c.on_drag(3, -1_000);
        c.on_zoom(-10_000);
    }
    assert_eq!(c.camera.phi, -PHI_LIMIT);
    assert_eq!(c.camera.distance, c.camera.min_distance);
    for _ in 0..1000 {
        c.on_zoom(10_000);
    }
    assert_eq!(c.camera.distance, c.camera.max_distance);
}

#[test]
fn one_day_per_second_for_a_day() {
    let mut c = Controls::new();
    for _ in 0..10 {
        c.tick(100_000, &catalog());
    }
    assert_eq!(c.time.current_nanodays, NANODAYS_PER_DAY);
}
