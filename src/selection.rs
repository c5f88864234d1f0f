//! Which body is selected, and whether the camera is locked onto it.
//!
//! Clicks, double-clicks and keys change the selection through the methods
//! here; each reports what changed so that the front end can move the camera
//! and update the info panel accordingly.

use vstd::prelude::*;
use crate::bodies::{BodyFlags, first_star, first_star_from, is_first_star};

verus! {

/// What a selection operation changed.
#[derive(Debug, Clone, Copy, PartialEq, Eq)]
pub enum SelectionChange {
    /// Nothing changed.
    Unchanged,
    /// This body is now selected, unlocked.
    Selected(usize),
    /// This body is now selected and the camera locked onto it.
    SelectedLocked(usize),
    /// Nothing is selected any more.
    Deselected,
    /// The camera lock is now on (`true`) or off (`false`).
    LockChanged(bool),
}

/// The selected body and the camera lock.
#[derive(Debug, Clone, Copy, PartialEq, Eq)]
pub struct Selection {
    /// Index of the selected body in the catalog, if any.
    pub selected: Option<usize>,
    /// The camera follows the selected body as it moves.
    pub locked: bool,
}

impl Selection {
    /// The lock is only ever on while a body is selected.
    pub open spec fn wf(&self) -> bool {
        self.locked ==> self.selected is Some
    }

    /// The body the camera follows this frame, given the catalog `bodies`:
    /// the selected body while locked, else the first star.
    pub open spec fn spec_follow_target(&self, bodies: Seq<BodyFlags>) -> Option<usize> {
        match self.selected {
            Some(i) if self.locked && i < bodies.len() => Some(i),
            _ => first_star_from(bodies, 0),
        }
    }

    /// Nothing selected, no lock.
    pub fn new() -> (r: Selection)
        ensures
            r.wf(),
            r.selected is None,
            !r.locked,
    {
        Selection { selected: None, locked: false }
    }

    /// Select body `idx` of a catalog of `count` bodies. Selecting the body
    /// that is already selected, or an index outside the catalog, changes
    /// nothing; any other selection clears the lock.
    pub fn select(&mut self, idx: usize, count: usize) -> (change: SelectionChange)
        requires
            old(self).wf(),
        ensures
            final(self).wf(),
            if old(self).selected == Some(idx) || idx >= count {
                *final(self) == *old(self) && change == SelectionChange::Unchanged
            } else {
                final(self).selected == Some(idx) && !final(self).locked
                    && change == SelectionChange::Selected(idx)
            },
    {
        if self.selected == Some(idx) || idx >= count {
            return SelectionChange::Unchanged;
        }
        self.selected = Some(idx);
        self.locked = false;
        SelectionChange::Selected(idx)
    }

    /// Drop the selection and the lock.
    pub fn deselect(&mut self) -> (change: SelectionChange)
        ensures
            final(self).wf(),
            final(self).selected is None,
            !final(self).locked,
            change == SelectionChange::Deselected,
    {
        self.selected = None;
        self.locked = false;
        SelectionChange::Deselected
    }

    /// Flip the lock on the selected body; nothing happens without one.
    pub fn toggle_lock(&mut self) -> (change: SelectionChange)
        requires
            old(self).wf(),
        ensures
            final(self).wf(),
            final(self).selected == old(self).selected,
            old(self).selected is None ==> *final(self) == *old(self) && change
                == SelectionChange::Unchanged,
            old(self).selected is Some ==> final(self).locked == !old(self).locked && change
                == SelectionChange::LockChanged(!old(self).locked),
    {
        if self.selected.is_none() {
            return SelectionChange::Unchanged;
        }
        self.locked = !self.locked;
        SelectionChange::LockChanged(self.locked)
    }

    /// A click that hit body `hit` (or nothing) in a catalog of `count`
    /// bodies: a hit selects that body, a miss deselects.
    pub fn click(&mut self, hit: Option<usize>, count: usize) -> (change: SelectionChange)
        requires
            old(self).wf(),
        ensures
            final(self).wf(),
            match hit {
                None => final(self).selected is None && !final(self).locked && change
                    == SelectionChange::Deselected,
                Some(idx) => if old(self).selected == Some(idx) || idx >= count {
                    *final(self) == *old(self) && change == SelectionChange::Unchanged
                } else {
                    final(self).selected == Some(idx) && !final(self).locked
                        && change == SelectionChange::Selected(idx)
                },
            },
    {
        match hit {
            Some(idx) => self.select(idx, count),
            None => self.deselect(),
        }
    }

    /// A double-click that hit body `hit` (or nothing): with a body already
    /// selected it toggles the lock, wherever it landed; otherwise a hit
    /// selects that body and locks onto it at once.
    pub fn double_click(&mut self, hit: Option<usize>, count: usize) -> (change: SelectionChange)
        requires
            old(self).wf(),
        ensures
            final(self).wf(),
            old(self).selected is Some ==> final(self).selected == old(self).selected
                && final(self).locked == !old(self).locked && change
                == SelectionChange::LockChanged(!old(self).locked),
            old(self).selected is None ==> match hit {
                Some(idx) if idx < count => final(self).selected == Some(idx) && final(self).locked
                    && change == SelectionChange::SelectedLocked(idx),
                _ => *final(self) == *old(self) && change == SelectionChange::Unchanged,
            },
    {
        if self.selected.is_some() {
            return self.toggle_lock();
        }
        match hit {
            Some(idx) => {
                if idx < count {
                    self.selected = Some(idx);
                    self.locked = true;
                    SelectionChange::SelectedLocked(idx)
                } else {
                    SelectionChange::Unchanged
                }
            },
            None => SelectionChange::Unchanged,
        }
    }

    /// The body the camera should follow this frame: the selected body while
    /// the lock is on, otherwise the first star, so that the view keeps the
    /// whole system's drift.
    pub fn follow_target(&self, bodies: &[BodyFlags]) -> (r: Option<usize>)
        ensures
            r == self.spec_follow_target(bodies@),
            match self.selected {
                Some(i) if self.locked && i < bodies@.len() => r == Some(i),
                _ => is_first_star(bodies@, r),
            },
    {
        match self.selected {
            Some(i) => {
                if self.locked && i < bodies.len() {
                    return Some(i);
                }
            },
            None => {},
        }
        first_star(bodies)
    }
}

} // verus!
