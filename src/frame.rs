//! Per-frame timing: the real-time step handed to the simulation each frame,
//! and the frame-rate figure shown on the telemetry display.

use vstd::prelude::*;

verus! {

/// Step assumed for the first frame, which has no earlier timestamp: 16 ms.
pub const FIRST_FRAME_MICROS: u64 = 16_000;

/// Longest step a single frame may take: 100 ms, so that a stalled or
/// hidden tab does not make the simulation jump.
pub const MAX_FRAME_MICROS: u64 = 100_000;

/// Highest frame rate reported.
pub const MAX_FPS: u64 = 1000;

/// Microseconds in a second.
pub const MICROS_PER_SECOND: u64 = 1_000_000;

/// The step of a frame at `now_micros` whose predecessor ran at `last_micros`
/// (`None` for the first frame).
pub open spec fn spec_frame_delta(last_micros: Option<u64>, now_micros: u64) -> u64 {
    match last_micros {
        None => FIRST_FRAME_MICROS,
        Some(last) => if now_micros <= last {
            0
        } else if now_micros - last > MAX_FRAME_MICROS {
            MAX_FRAME_MICROS
        } else {
            (now_micros - last) as u64
        },
    }
}

/// The real-time step of a frame: the nominal first-frame step when there is
/// no previous frame, else the time since it, never negative and never more
/// than `MAX_FRAME_MICROS`.
pub fn frame_delta(last_micros: Option<u64>, now_micros: u64) -> (r: u64)
    ensures
        r == spec_frame_delta(last_micros, now_micros),
        r <= MAX_FRAME_MICROS,
{
    match last_micros {
        None => FIRST_FRAME_MICROS,
        Some(last) => {
            if now_micros <= last {
                0
            } else if now_micros - last > MAX_FRAME_MICROS {
                MAX_FRAME_MICROS
            } else {
                now_micros - last
            }
        },
    }
}

/// Whole frames per second of a frame that took `dt_micros`, capped at
/// `MAX_FPS`; zero for an empty step.
pub open spec fn spec_fps_estimate(dt_micros: u64) -> u64 {
    if dt_micros == 0 {
        0
    } else if MICROS_PER_SECOND / dt_micros > MAX_FPS {
        MAX_FPS
    } else {
        (MICROS_PER_SECOND / dt_micros) as u64
    }
}

/// The frame rate of a frame that took `dt_micros`: its reciprocal in whole
/// frames per second, capped at `MAX_FPS`; zero for an empty step.
pub fn fps_estimate(dt_micros: u64) -> (r: u64)
    ensures
        r == spec_fps_estimate(dt_micros),
{
    if dt_micros == 0 {
        0
    } else {
        let f = MICROS_PER_SECOND / dt_micros;
        if f > MAX_FPS {
            MAX_FPS
        } else {
            f
        }
    }
}

} // verus!
