//! The seven fixed uniform slots handed to the raymarching shader.
//!
//! Each slot is overwritten wholesale, never patched, and holds the semantic
//! payload of the corresponding shader uniform. The unverified GPU layer turns
//! each payload into its fixed-size byte blob (the rotation angle into a 4x4
//! column-major rotation matrix about the vertical axis, micro-unit scalars
//! into 32-bit floats) and uploads it. Every slot is written at least once at
//! construction, so no slot is ever uninitialized.

use vstd::prelude::*;
use crate::units::MICRO;

verus! {

/// The current contents of the seven uniform slots.
///
/// Angles and window parameters are in micro-units (see [`crate::units`]);
/// times are in microseconds.
#[verifier::ext_equal]
#[derive(Clone, Copy, Debug, PartialEq, Eq, Structural)]
pub struct UniformBank {
    /// Rotation slot: the world rotates about the vertical axis by this many
    /// microradians (numerically, the elapsed time in microseconds).
    pub rotation_angle: u64,
    /// Window-size slot: width of the last requested viewport, in pixels.
    pub window_w: u32,
    /// Window-size slot: height of the last requested viewport, in pixels.
    pub window_h: u32,
    /// Time slot: microseconds elapsed since the clock origin.
    pub time_micros: u64,
    /// Camera-origin slot: azimuth in microradians.
    pub camera_theta: i64,
    /// Camera-origin slot: elevation in microradians.
    pub camera_delta: i64,
    /// Cuts slot: intensity-window scale, in micro-units.
    pub cuts_scale: i64,
    /// Cuts slot: intensity-window offset, in micro-units.
    pub cuts_offset: i64,
    /// Perspective slot: projection-mode flag.
    pub perspective: bool,
    /// Min-max slot: lower bound of the displayed intensity range, micro-units.
    pub min_value: i64,
    /// Min-max slot: upper bound of the displayed intensity range, micro-units.
    pub max_value: i64,
}

impl UniformBank {
    /// The slot contents established during setup: no rotation, zero elapsed
    /// time, camera at the origin of angles, identity cuts (scale one, offset
    /// zero), orthographic projection, unit normalization range, and the
    /// window size as first reported.
    pub open spec fn spec_initial(width: u32, height: u32) -> UniformBank {
        UniformBank {
            rotation_angle: 0,
            window_w: width,
            window_h: height,
            time_micros: 0,
            camera_theta: 0,
            camera_delta: 0,
            cuts_scale: MICRO,
            cuts_offset: 0,
            perspective: false,
            min_value: 0,
            max_value: MICRO,
        }
    }

    /// Write every slot its setup value.
    pub fn initial(width: u32, height: u32) -> (bank: UniformBank)
        ensures
            bank == UniformBank::spec_initial(width, height),
    {
        UniformBank {
            rotation_angle: 0,
            window_w: width,
            window_h: height,
            time_micros: 0,
            camera_theta: 0,
            camera_delta: 0,
            cuts_scale: MICRO,
            cuts_offset: 0,
            perspective: false,
            min_value: 0,
            max_value: MICRO,
        }
    }

    /// Overwrite the rotation slot.
    pub fn write_rotation(&mut self, angle: u64)
        ensures
            *final(self) == (UniformBank { rotation_angle: angle, ..*old(self) }),
    {
        self.rotation_angle = angle;
    }

    /// Overwrite the window-size slot.
    pub fn write_window_size(&mut self, width: u32, height: u32)
        ensures
            *final(self) == (UniformBank { window_w: width, window_h: height, ..*old(self) }),
    {
        self.window_w = width;
        self.window_h = height;
    }

    /// Overwrite the time slot.
    pub fn write_time(&mut self, micros: u64)
        ensures
            *final(self) == (UniformBank { time_micros: micros, ..*old(self) }),
    {
        self.time_micros = micros;
    }

    /// Overwrite the camera-origin slot.
    pub fn write_camera(&mut self, theta: i64, delta: i64)
        ensures
            *final(self) == (UniformBank { camera_theta: theta, camera_delta: delta, ..*old(self) }),
    {
        self.camera_theta = theta;
        self.camera_delta = delta;
    }

    /// Overwrite the cuts slot.
    pub fn write_cuts(&mut self, scale: i64, offset: i64)
        ensures
            *final(self) == (UniformBank { cuts_scale: scale, cuts_offset: offset, ..*old(self) }),
    {
        self.cuts_scale = scale;
        self.cuts_offset = offset;
    }

    /// Overwrite the perspective slot.
    pub fn write_perspective(&mut self, on: bool)
        ensures
            *final(self) == (UniformBank { perspective: on, ..*old(self) }),
    {
        self.perspective = on;
    }

    /// Overwrite the min-max slot.
    pub fn write_minmax(&mut self, min_value: i64, max_value: i64)
        ensures
            *final(self) == (UniformBank { min_value: min_value, max_value: max_value, ..*old(self) }),
    {
        self.min_value = min_value;
        self.max_value = max_value;
    }
}

} // verus!
