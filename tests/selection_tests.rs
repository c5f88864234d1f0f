use solara::catalog::{catalog_flags, create_solar_system};
use solara::bodies::{first_star, orbiting_bodies, ringed_bodies, BodyFlags};
use solara::selection::{Selection, SelectionChange};

fn catalog() -> Vec<BodyFlags> {
    catalog_flags(&create_solar_system())
}

#[test]
fn all_planets_listed() {
    let bodies = catalog();
    assert_eq!(orbiting_bodies(&bodies), vec![1, 2, 3, 4, 5, 6, 7, 8]);
    assert_eq!(orbiting_bodies(&bodies).len(), 8);
}

#[test]
fn ringed_and_star_lookup() {
    let bodies = catalog();
    assert_eq!(ringed_bodies(&bodies), vec![6]);
    assert_eq!(first_star(&bodies), Some(0));
    assert_eq!(first_star(&bodies[1..]), None);
    assert_eq!(orbiting_bodies(&[]), Vec::<usize>::new());
}

#[test]
fn star_found_after_planets() {
    let bodies = vec![
        BodyFlags { is_star: false, has_rings: false },
        BodyFlags { is_star: true, has_rings: false },
        BodyFlags { is_star: true, has_rings: false },
    ];
    assert_eq!(first_star(&bodies), Some(1));
    assert_eq!(orbiting_bodies(&bodies), vec![0]);
}

#[test]
fn new_selection_is_empty() {
    let s = Selection::new();
    assert_eq!(s.selected, None);
    assert!(!s.locked);
}

#[test]
fn click_selects_and_clears_lock() {
    let mut s = Selection::new();
    assert_eq!(s.click(Some(3), 9), SelectionChange::Selected(3));
    assert_eq!(s.selected, Some(3));
    assert!(!s.locked);
    assert_eq!(s.toggle_lock(), SelectionChange::LockChanged(true));
    assert_eq!(s.click(Some(4), 9), SelectionChange::Selected(4));
    assert!(!s.locked);
}

#[test]
fn reselecting_same_body_changes_nothing() {
    let mut s = Selection::new();
    s.select(2, 9);
    s.toggle_lock();
    assert_eq!(s.select(2, 9), SelectionChange::Unchanged);
    assert!(s.locked);
}

#[test]
fn out_of_range_selection_is_ignored() {
    let mut s = Selection::new();
    assert_eq!(s.select(9, 9), SelectionChange::Unchanged);
    assert_eq!(s.selected, None);
}

#[test]
fn click_on_nothing_deselects() {
    let mut s = Selection::new();
    s.select(5, 9);
    s.toggle_lock();
    assert_eq!(s.click(None, 9), SelectionChange::Deselected);
    assert_eq!(s.selected, None);
    assert!(!s.locked);
}

#[test]
fn lock_needs_a_selection() {
    let mut s = Selection::new();
    assert_eq!(s.toggle_lock(), SelectionChange::Unchanged);
    assert!(!s.locked);
}

#[test]
fn double_click_selects_and_locks_then_toggles() {
    let mut s = Selection::new();
    assert_eq!(s.double_click(None, 9), SelectionChange::Unchanged);
    assert_eq!(s.double_click(Some(12), 9), SelectionChange::Unchanged);
    assert_eq!(s.double_click(Some(3), 9), SelectionChange::SelectedLocked(3));
    assert_eq!(s.selected, Some(3));
    assert!(s.locked);
    assert_eq!(s.double_click(None, 9), SelectionChange::LockChanged(false));
    assert_eq!(s.selected, Some(3));
    assert!(!s.locked);
}

#[test]
fn follow_star_unless_locked() {
    let bodies = catalog();
    let mut s = Selection::new();
    assert_eq!(s.follow_target(&bodies), Some(0));
    s.select(3, bodies.len());
    assert_eq!(s.follow_target(&bodies), Some(0));
    s.toggle_lock();
    assert_eq!(s.follow_target(&bodies), Some(3));
    s.deselect();
    assert_eq!(s.follow_target(&bodies), Some(0));
    assert_eq!(s.follow_target(&bodies[1..]), None);
}
