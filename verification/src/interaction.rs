//! The pointer-gesture state machine.
//!
//! Three states, no terminal one: `Idle`, `Panning` (primary button held,
//! dragging the camera), `Adjusting` (secondary button held, dragging the
//! intensity window). A gesture anchors at the cursor position where the
//! button went down; every move while the button is held turns the travel
//! from the anchor into a pending delta and previews it; only the matching
//! release merges the pending delta into the committed values. A gesture that
//! ends any other way leaves the committed values untouched.

use vstd::prelude::*;
use crate::units::{clamp_delta_spec, sat_add_spec, DELTA_MAX_MICRO, DELTA_MIN_MICRO};

verus! {

/// The interaction mode: which gesture, if any, is in progress.
#[verifier::ext_equal]
#[derive(Clone, Copy, Debug, PartialEq, Eq, Structural)]
pub enum Mode {
    /// No button held; moves only track the cursor.
    Idle,
    /// Primary button held; moves preview camera azimuth and elevation.
    Panning,
    /// Secondary button held; moves preview the intensity window.
    Adjusting,
}

/// The interaction state: mode, tracked cursor, gesture anchor, and the
/// committed and pending camera and cuts parameters, in micro-units.
///
/// `committed_*` persist across gestures; `pending_*` belong to the gesture in
/// progress, are zeroed whenever a gesture starts, and are folded into the
/// committed values only by the matching release.
#[verifier::ext_equal]
#[derive(Clone, Copy, Debug, PartialEq, Eq, Structural)]
pub struct Controller {
    /// Which gesture is in progress.
    pub mode: Mode,
    /// Last reported cursor position, x, in pixels.
    pub cursor_x: i32,
    /// Last reported cursor position, y, in pixels.
    pub cursor_y: i32,
    /// Cursor position where the current gesture started, x.
    pub anchor_x: i32,
    /// Cursor position where the current gesture started, y.
    pub anchor_y: i32,
    /// Committed camera azimuth, microradians.
    pub committed_theta: i64,
    /// Committed camera elevation, microradians; always within the clamp range.
    pub committed_delta: i64,
    /// Committed intensity-window scale, micro-units.
    pub committed_scale: i64,
    /// Committed intensity-window offset, micro-units.
    pub committed_offset: i64,
    /// Azimuth delta of the panning gesture in progress.
    pub pending_dtheta: i64,
    /// Elevation delta of the panning gesture in progress.
    pub pending_ddelta: i64,
    /// Scale delta of the adjusting gesture in progress.
    pub pending_dscale: i64,
    /// Offset delta of the adjusting gesture in progress.
    pub pending_doffset: i64,
}

impl Controller {
    /// The camera azimuth the shader should see: the committed azimuth plus
    /// the pending preview delta.
    pub open spec fn preview_theta(self) -> int {
        sat_add_spec(self.committed_theta as int, self.pending_dtheta as int)
    }

    /// The camera elevation the shader should see: the committed elevation
    /// plus the pending preview delta, clamped away from the poles.
    pub open spec fn preview_delta(self) -> int {
        clamp_delta_spec(sat_add_spec(self.committed_delta as int, self.pending_ddelta as int))
    }

    /// The intensity-window scale the shader should see.
    pub open spec fn preview_scale(self) -> int {
        sat_add_spec(self.committed_scale as int, self.pending_dscale as int)
    }

    /// The intensity-window offset the shader should see.
    pub open spec fn preview_offset(self) -> int {
        sat_add_spec(self.committed_offset as int, self.pending_doffset as int)
    }

    /// Validity of the interaction state: the committed elevation stays within
    /// the clamp range, and deltas can pend only for the gesture in progress.
    pub open spec fn wf(self) -> bool {
        &&& DELTA_MIN_MICRO <= self.committed_delta <= DELTA_MAX_MICRO
        &&& self.mode is Idle ==> self.pending_dtheta == 0 && self.pending_ddelta == 0
            && self.pending_dscale == 0 && self.pending_doffset == 0
        &&& self.mode is Panning ==> self.pending_dscale == 0 && self.pending_doffset == 0
        &&& self.mode is Adjusting ==> self.pending_dtheta == 0 && self.pending_ddelta == 0
    }

    /// The interaction state at startup: idle, cursor and anchor at the
    /// window origin, camera at zero azimuth and elevation, identity cuts.
    pub open spec fn spec_initial() -> Controller {
        Controller {
            mode: Mode::Idle,
            cursor_x: 0,
            cursor_y: 0,
            anchor_x: 0,
            anchor_y: 0,
            committed_theta: 0,
            committed_delta: 0,
            committed_scale: crate::units::MICRO,
            committed_offset: 0,
            pending_dtheta: 0,
            pending_ddelta: 0,
            pending_dscale: 0,
            pending_doffset: 0,
        }
    }

    /// Build the startup interaction state.
    pub fn initial() -> (c: Controller)
        ensures
            c == Controller::spec_initial(),
            c.wf(),
    {
        Controller {
            mode: Mode::Idle,
            cursor_x: 0,
            cursor_y: 0,
            anchor_x: 0,
            anchor_y: 0,
            committed_theta: 0,
            committed_delta: 0,
            committed_scale: crate::units::MICRO,
            committed_offset: 0,
            pending_dtheta: 0,
            pending_ddelta: 0,
            pending_dscale: 0,
            pending_doffset: 0,
        }
    }
}

} // verus!
