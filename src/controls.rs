//! The interactive state of the viewer (clock, camera, selection) and how
//! input events and frames change it.
//!
//! Each handler applies what an event decides and returns an [`Effect`]
//! naming what the front end still has to do with it: refresh the telemetry,
//! move the camera's target point, show or hide the info panel.

use vstd::prelude::*;
use crate::bodies::BodyFlags;
use crate::camera::{
    Camera, DEFAULT_DISTANCE, default_camera, spec_focus_distance, spec_set_target_distance,
    spec_rotate, spec_update_transition, spec_zoom, transition_fraction, spec_transition_fraction,
};
use crate::clock::{SimulationTime, DEFAULT_SPEED, initial_clock, spec_advance, stepped_down, stepped_up};
use crate::frame::{fps_estimate, spec_fps_estimate};
use crate::keys::Command;
use crate::selection::{Selection, SelectionChange};

verus! {

/// What the front end must do after an event.
#[derive(Debug, Clone, Copy, PartialEq, Eq)]
pub enum Effect {
    /// Nothing more.
    Nothing,
    /// The clock changed: push the telemetry again.
    Telemetry,
    /// Show or hide the telemetry display.
    ToggleHud,
    /// The camera angles changed.
    ViewChanged,
    /// The selection changed. On a new selection the camera's target point
    /// moves to that body and the info panel shows it; on deselection the
    /// target point returns to the origin and the panel hides; on a lock
    /// change the panel's lock label follows.
    Selection(SelectionChange),
}

/// The camera after the distance transition that goes with `change`, for
/// bodies of display radii `radii`.
pub open spec fn camera_after(c: Camera, change: SelectionChange, radii: Seq<i64>) -> Camera {
    match change {
        SelectionChange::Selected(i) => spec_set_target_distance(
            c,
            spec_focus_distance(c.min_distance, radii[i as int]),
        ),
        SelectionChange::SelectedLocked(i) => spec_set_target_distance(
            c,
            spec_focus_distance(c.min_distance, radii[i as int]),
        ),
        SelectionChange::Deselected => spec_set_target_distance(c, DEFAULT_DISTANCE),
        _ => c,
    }
}

/// What one frame decided.
#[derive(Debug, Clone, Copy, PartialEq, Eq)]
pub struct FrameUpdate {
    /// The body whose position the camera's target point follows.
    pub follow: Option<usize>,
    /// The fraction (parts per million) of the remaining way the target
    /// point moves toward its goal this frame.
    pub transition_fraction: u64,
    /// Frame rate for the telemetry display.
    pub fps: u64,
}

/// Clock, camera and selection of a running viewer.
#[derive(Debug, Clone, Copy, PartialEq, Eq)]
pub struct Controls {
    /// Simulated time and its speed.
    pub time: SimulationTime,
    /// Orbital angles and zoom.
    pub camera: Camera,
    /// Selected body and camera lock.
    pub selection: Selection,
}

impl Controls {
    /// Each part keeps its own invariant.
    pub open spec fn wf(&self) -> bool {
        &&& self.time.wf()
        &&& self.camera.wf()
        &&& self.selection.wf()
    }

    /// The clock at the epoch, the default camera, nothing selected.
    pub fn new() -> (r: Controls)
        ensures
            r.wf(),
            r.time == initial_clock(),
            r.camera == default_camera(),
            r.selection.selected is None,
            !r.selection.locked,
    {
        Controls { time: SimulationTime::new(), camera: Camera::new(), selection: Selection::new() }
    }

    /// Start the camera's distance transition that goes with a selection
    /// change: toward a newly selected body, or back to the overview.
    fn follow_change(&mut self, change: SelectionChange, radii: &[i64])
        requires
            old(self).wf(),
            change matches SelectionChange::Selected(i) ==> i < radii@.len(),
            change matches SelectionChange::SelectedLocked(i) ==> i < radii@.len(),
        ensures
            final(self).wf(),
            final(self).time == old(self).time,
            final(self).selection == old(self).selection,
            final(self).camera == camera_after(old(self).camera, change, radii@),
    {
        match change {
            SelectionChange::Selected(i) | SelectionChange::SelectedLocked(i) => {
                let d = self.camera.focus_distance(radii[i]);
                self.camera.set_target_distance(d);
            },
            SelectionChange::Deselected => {
                self.camera.set_target_distance(DEFAULT_DISTANCE);
            },
            _ => {},
        }
    }

    /// Apply a key command, in a catalog whose bodies have display radii
    /// `radii` (thousandths of a display unit).
    pub fn on_key(&mut self, cmd: Command, radii: &[i64]) -> (effect: Effect)
        requires
            old(self).wf(),
        ensures
            final(self).wf(),
            match cmd {
                Command::TogglePause => final(self).time == (SimulationTime {
                    paused: !old(self).time.paused,
                    ..old(self).time
                }) && final(self).camera == old(self).camera && final(self).selection
                    == old(self).selection && effect == Effect::Telemetry,
                Command::SpeedUp => final(self).time == (SimulationTime {
                    speed: stepped_up(old(self).time.speed),
                    ..old(self).time
                }) && final(self).camera == old(self).camera && final(self).selection
                    == old(self).selection && effect == Effect::Telemetry,
                Command::SpeedDown => final(self).time == (SimulationTime {
                    speed: stepped_down(old(self).time.speed),
                    ..old(self).time
                }) && final(self).camera == old(self).camera && final(self).selection
                    == old(self).selection && effect == Effect::Telemetry,
                Command::ResetSpeed => final(self).time == (SimulationTime {
                    speed: DEFAULT_SPEED,
                    paused: false,
                    ..old(self).time
                }) && final(self).camera == old(self).camera && final(self).selection
                    == old(self).selection && effect == Effect::Telemetry,
                Command::ToggleHud => *final(self) == *old(self) && effect == Effect::ToggleHud,
                Command::TopDown => final(self).camera == (Camera {
                    theta: 0,
                    phi: crate::camera::PHI_LIMIT,
                    ..old(self).camera
                }) && final(self).time == old(self).time && final(self).selection
                    == old(self).selection && effect == Effect::ViewChanged,
                Command::Home | Command::Deselect => final(self).selection.selected is None
                    && !final(self).selection.locked && final(self).time == old(self).time
                    && final(self).camera == spec_set_target_distance(
                    old(self).camera,
                    DEFAULT_DISTANCE,
                ) && effect == Effect::Selection(SelectionChange::Deselected),
                Command::SelectBody(i) => if old(self).selection.selected == Some(i) || i
                    >= radii@.len() {
                    *final(self) == *old(self) && effect == Effect::Selection(
                        SelectionChange::Unchanged,
                    )
                } else {
                    final(self).selection.selected == Some(i) && !final(self).selection.locked
                        && final(self).time == old(self).time && final(self).camera
                        == spec_set_target_distance(
                        old(self).camera,
                        spec_focus_distance(old(self).camera.min_distance, radii@[i as int]),
                    ) && effect == Effect::Selection(SelectionChange::Selected(i))
                },
            },
    {
        match cmd {
            Command::TogglePause => {
                self.time.toggle_pause();
                Effect::Telemetry
            },
            Command::SpeedUp => {
                self.time.speed_up();
                Effect::Telemetry
            },
            Command::SpeedDown => {
                self.time.speed_down();
                Effect::Telemetry
            },
            Command::ResetSpeed => {
                self.time.set_speed(DEFAULT_SPEED as i64);
                self.time.paused = false;
                Effect::Telemetry
            },
            Command::ToggleHud => Effect::ToggleHud,
            Command::TopDown => {
                self.camera.top_down();
                Effect::ViewChanged
            },
            Command::Home | Command::Deselect => {
                let change = self.selection.deselect();
                self.follow_change(change, radii);
                Effect::Selection(change)
            },
            Command::SelectBody(i) => {
                let change = self.selection.select(i, radii.len());
                self.follow_change(change, radii);
                Effect::Selection(change)
            },
        }
    }

    /// A click that hit body `hit` (or nothing): a hit selects the body and
    /// starts the camera toward it, a miss deselects and returns the camera
    /// to the overview.
    pub fn on_click(&mut self, hit: Option<usize>, radii: &[i64]) -> (effect: Effect)
        requires
            old(self).wf(),
        ensures
            final(self).wf(),
            final(self).time == old(self).time,
            effect matches Effect::Selection(change) && final(self).camera == camera_after(
                old(self).camera,
                change,
                radii@,
            ),
            match hit {
                None => final(self).selection.selected is None && !final(self).selection.locked
                    && effect == Effect::Selection(SelectionChange::Deselected),
                Some(i) => if old(self).selection.selected == Some(i) || i >= radii@.len() {
                    final(self).selection == old(self).selection && effect == Effect::Selection(
                        SelectionChange::Unchanged,
                    )
                } else {
                    final(self).selection.selected == Some(i) && !final(self).selection.locked
                        && effect == Effect::Selection(SelectionChange::Selected(i))
                },
            },
    {
        let change = self.selection.click(hit, radii.len());
        self.follow_change(change, radii);
        Effect::Selection(change)
    }

    /// A double-click that hit body `hit` (or nothing): toggles the lock on
    /// the selected body, or with nothing selected selects the hit body and
    /// locks onto it.
    pub fn on_double_click(&mut self, hit: Option<usize>, radii: &[i64]) -> (effect: Effect)
        requires
            old(self).wf(),
        ensures
            final(self).wf(),
            final(self).time == old(self).time,
            effect matches Effect::Selection(change) && final(self).camera == camera_after(
                old(self).camera,
                change,
                radii@,
            ),
            old(self).selection.selected is Some ==> final(self).selection.selected == old(
                self,
            ).selection.selected && final(self).selection.locked == !old(self).selection.locked
                && effect == Effect::Selection(
                SelectionChange::LockChanged(!old(self).selection.locked),
            ),
            old(self).selection.selected is None ==> match hit {
                Some(i) if i < radii@.len() => final(self).selection.selected == Some(i)
                    && final(self).selection.locked && effect == Effect::Selection(
                    SelectionChange::SelectedLocked(i),
                ),
                _ => final(self).selection == old(self).selection && effect == Effect::Selection(
                    SelectionChange::Unchanged,
                ),
            },
    {
        let change = self.selection.double_click(hit, radii.len());
        self.follow_change(change, radii);
        Effect::Selection(change)
    }

    /// A drag of `dx`, `dy` pixels.
    pub fn on_drag(&mut self, dx: i64, dy: i64)
        requires
            old(self).wf(),
        ensures
            final(self).wf(),
            final(self).camera == spec_rotate(old(self).camera, dx, dy),
            final(self).time == old(self).time,
            final(self).selection == old(self).selection,
    {
        self.camera.rotate(dx, dy);
    }

    /// A zoom of `delta` wheel units.
    pub fn on_zoom(&mut self, delta: i64)
        requires
            old(self).wf(),
        ensures
            final(self).wf(),
            final(self).camera == spec_zoom(old(self).camera, delta),
            final(self).time == old(self).time,
            final(self).selection == old(self).selection,
    {
        self.camera.zoom(delta);
    }

    /// One frame of `dt_micros`: advance the clock and the camera's distance
    /// transition, and decide which body the camera's target point follows.
    pub fn tick(&mut self, dt_micros: u64, bodies: &[BodyFlags]) -> (r: FrameUpdate)
        requires
            old(self).wf(),
        ensures
            final(self).wf(),
            final(self).time == spec_advance(old(self).time, dt_micros),
            final(self).camera == spec_update_transition(old(self).camera, dt_micros),
            final(self).selection == old(self).selection,
            r.follow == old(self).selection.spec_follow_target(bodies@),
            r.transition_fraction == spec_transition_fraction(dt_micros),
            r.fps == spec_fps_estimate(dt_micros),
    {
        self.time.advance(dt_micros);
        let fps = fps_estimate(dt_micros);
        let follow = self.selection.follow_target(bodies);
        self.camera.update_transition(dt_micros);
        FrameUpdate { follow, transition_fraction: transition_fraction(dt_micros), fps }
    }
}

} // verus!
