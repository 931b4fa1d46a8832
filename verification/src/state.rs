//! The composition root: uniform bank, interaction controller, frame
//! scheduler and the active volume texture, driven by the window events.
//!
//! Every public operation is specified by a spec-level transition function of
//! the whole state, and its executable method is proved to implement that
//! transition exactly. The well-formedness invariant ties the uniform slots to
//! the interaction state: the camera and cuts slots always hold the committed
//! values overlaid with the pending preview of the gesture in progress.

use vstd::prelude::*;
use crate::interaction::{Controller, Mode};
use crate::scheduler::{AcquireOutcome, FrameAction, FrameScheduler, RenderPlan, SurfaceStatus};
use crate::uniforms::UniformBank;
use crate::units::{clamp_delta, drag_norm, drag_norm_spec, sat_add};

verus! {

/// The render/interaction state manager of the viewer.
#[verifier::ext_equal]
#[derive(Clone, Copy, Debug, PartialEq, Eq, Structural)]
pub struct VisualizerState {
    /// The seven uniform slots the shader reads.
    pub bank: UniformBank,
    /// The pointer-gesture state machine.
    pub ctrl: Controller,
    /// Surface configuration and the clock origin.
    pub sched: FrameScheduler,
    /// Token of the volume texture bound for rendering, as issued by the GPU
    /// layer; replaced only by a fully successful swap.
    pub active_cube: u64,
}

impl VisualizerState {
    /// Validity of the whole state: the controller is valid, and each uniform
    /// slot driven by interaction holds the committed value overlaid with the
    /// pending preview (which, outside the matching gesture, is zero).
    pub open spec fn wf(self) -> bool {
        &&& self.ctrl.wf()
        &&& self.bank.camera_theta == self.ctrl.preview_theta()
        &&& self.bank.camera_delta == self.ctrl.preview_delta()
        &&& self.bank.cuts_scale == self.ctrl.preview_scale()
        &&& self.bank.cuts_offset == self.ctrl.preview_offset()
    }

    /// The state after construction: every uniform slot written its setup
    /// value, controller idle, surface unconfigured, the placeholder texture
    /// token zero active.
    pub open spec fn spec_initial(width: u32, height: u32, now: u64) -> VisualizerState {
        VisualizerState {
            bank: UniformBank::spec_initial(width, height),
            ctrl: Controller::spec_initial(),
            sched: FrameScheduler::spec_initial(width, height, now),
            active_cube: 0,
        }
    }

    /// The state after a resize request: the window-size slot always takes
    /// the requested size; only a request with both dimensions positive
    /// configures the surface and moves the gesture viewport.
    pub open spec fn spec_resize(self, width: u32, height: u32) -> VisualizerState {
        let bank = UniformBank { window_w: width, window_h: height, ..self.bank };
        if width > 0 && height > 0 {
            VisualizerState {
                bank,
                sched: FrameScheduler {
                    status: SurfaceStatus::Configured,
                    viewport_w: width,
                    viewport_h: height,
                    ..self.sched
                },
                ..self
            }
        } else {
            VisualizerState { bank, ..self }
        }
    }

    /// The state after a frame update at clock reading `now`: the rotation
    /// slot takes the elapsed time as the rotation angle about the vertical
    /// axis and the time slot takes the elapsed time, nothing else moves.
    pub open spec fn spec_update(self, now: u64) -> VisualizerState {
        let elapsed = self.sched.spec_elapsed(now);
        VisualizerState {
            bank: UniformBank { rotation_angle: elapsed, time_micros: elapsed, ..self.bank },
            ..self
        }
    }

    /// The state after the primary button goes down: from `Idle` the panning
    /// gesture starts, anchored at the tracked cursor, with zeroed pending
    /// camera deltas; in any other mode nothing moves.
    pub open spec fn spec_primary_press(self) -> VisualizerState {
        if self.ctrl.mode is Idle {
            VisualizerState {
                ctrl: Controller {
                    mode: Mode::Panning,
                    anchor_x: self.ctrl.cursor_x,
                    anchor_y: self.ctrl.cursor_y,
                    pending_dtheta: 0,
                    pending_ddelta: 0,
                    ..self.ctrl
                },
                ..self
            }
        } else {
            self
        }
    }

    /// The state after the primary button goes up: from `Panning` the pending
    /// camera deltas merge into the committed angles, the elevation clamped
    /// once more away from the poles, and the gesture ends; in any other mode
    /// nothing moves. No uniform slot changes: the last preview already wrote
    /// exactly the committed result.
    pub open spec fn spec_primary_release(self) -> VisualizerState {
        if self.ctrl.mode is Panning {
            VisualizerState {
                ctrl: Controller {
                    mode: Mode::Idle,
                    committed_theta: self.ctrl.preview_theta() as i64,
                    committed_delta: self.ctrl.preview_delta() as i64,
                    pending_dtheta: 0,
                    pending_ddelta: 0,
                    ..self.ctrl
                },
                ..self
            }
        } else {
            self
        }
    }

    /// The state after the secondary button goes down: from `Idle` the
    /// adjusting gesture starts, anchored at the tracked cursor, with zeroed
    /// pending cuts deltas; in any other mode nothing moves.
    pub open spec fn spec_secondary_press(self) -> VisualizerState {
        if self.ctrl.mode is Idle {
            VisualizerState {
                ctrl: Controller {
                    mode: Mode::Adjusting,
                    anchor_x: self.ctrl.cursor_x,
                    anchor_y: self.ctrl.cursor_y,
                    pending_dscale: 0,
                    pending_doffset: 0,
                    ..self.ctrl
                },
                ..self
            }
        } else {
            self
        }
    }

    /// The state after the secondary button goes up: from `Adjusting` the
    /// pending cuts deltas merge into the committed window, unclamped, and
    /// the gesture ends; in any other mode nothing moves.
    pub open spec fn spec_secondary_release(self) -> VisualizerState {
        if self.ctrl.mode is Adjusting {
            VisualizerState {
                ctrl: Controller {
                    mode: Mode::Idle,
                    committed_scale: self.ctrl.preview_scale() as i64,
                    committed_offset: self.ctrl.preview_offset() as i64,
                    pending_dscale: 0,
                    pending_doffset: 0,
                    ..self.ctrl
                },
                ..self
            }
        } else {
            self
        }
    }

    /// The normalized horizontal travel of the cursor from the gesture
    /// anchor, in micro-units of the viewport half-extent.
    pub open spec fn norm_x(self, x: i32) -> int {
        drag_norm_spec(x - self.ctrl.anchor_x, self.sched.viewport_w as int)
    }

    /// The normalized vertical travel of the cursor from the gesture anchor.
    pub open spec fn norm_y(self, y: i32) -> int {
        drag_norm_spec(y - self.ctrl.anchor_y, self.sched.viewport_h as int)
    }

    /// The state after the cursor moves to `(x, y)`. Idle: only the tracked
    /// cursor changes. Panning: the pending camera deltas become twice the
    /// normalized horizontal travel and the normalized vertical travel, and
    /// the camera slot previews them. Adjusting: the pending cuts deltas
    /// become the normalized vertical and horizontal travels, and the cuts
    /// slot previews them.
    pub open spec fn spec_cursor_move(self, x: i32, y: i32) -> VisualizerState {
        match self.ctrl.mode {
            Mode::Idle => VisualizerState {
                ctrl: Controller { cursor_x: x, cursor_y: y, ..self.ctrl },
                ..self
            },
            Mode::Panning => {
                let ctrl = Controller {
                    cursor_x: x,
                    cursor_y: y,
                    pending_dtheta: (2 * self.norm_x(x)) as i64,
                    pending_ddelta: self.norm_y(y) as i64,
                    ..self.ctrl
                };
                VisualizerState {
                    ctrl,
                    bank: UniformBank {
                        camera_theta: ctrl.preview_theta() as i64,
                        camera_delta: ctrl.preview_delta() as i64,
                        ..self.bank
                    },
                    ..self
                }
            },
            Mode::Adjusting => {
                let ctrl = Controller {
                    cursor_x: x,
                    cursor_y: y,
                    pending_dscale: self.norm_y(y) as i64,
                    pending_doffset: self.norm_x(x) as i64,
                    ..self.ctrl
                };
                VisualizerState {
                    ctrl,
                    bank: UniformBank {
                        cuts_scale: ctrl.preview_scale() as i64,
                        cuts_offset: ctrl.preview_offset() as i64,
                        ..self.bank
                    },
                    ..self
                }
            },
        }
    }

    /// The state after a projection-mode toggle: only the perspective slot.
    pub open spec fn spec_set_perspective(self, on: bool) -> VisualizerState {
        VisualizerState { bank: UniformBank { perspective: on, ..self.bank }, ..self }
    }

    /// The state after a normalization-range request: only the min-max slot.
    pub open spec fn spec_normalize(self, min_value: i64, max_value: i64) -> VisualizerState {
        VisualizerState {
            bank: UniformBank { min_value, max_value, ..self.bank },
            ..self
        }
    }

    /// What `render` decides before touching the GPU: skip when the last
    /// requested window size has no area or the surface was never configured.
    pub open spec fn spec_render_plan(self) -> RenderPlan {
        if self.bank.window_w == 0 || self.bank.window_h == 0
            || self.sched.status is Unconfigured {
            RenderPlan::Skip
        } else {
            RenderPlan::Acquire
        }
    }

    /// The recovery policy after a frame-acquisition attempt: draw on
    /// success; a lost surface is reconfigured at the current viewport size
    /// and retried; out-of-memory is fatal; anything else heals by skipping
    /// the frame.
    pub open spec fn spec_frame_action(self, outcome: AcquireOutcome) -> FrameAction {
        match outcome {
            AcquireOutcome::Frame => FrameAction::Draw,
            AcquireOutcome::SurfaceLost => FrameAction::Reconfigure(
                self.sched.viewport_w,
                self.sched.viewport_h,
            ),
            AcquireOutcome::OutOfMemory => FrameAction::Fatal,
            AcquireOutcome::TransientPresent => FrameAction::SkipFrame,
        }
    }

    /// The state after a swap attempt whose bind-group construction ended as
    /// `built`: on success the new texture token becomes active; on failure
    /// nothing at all changes, the previous cube stays fully active.
    pub open spec fn spec_swap_cube(self, built: Option<u64>) -> VisualizerState {
        match built {
            Option::Some(id) => VisualizerState { active_cube: id, ..self },
            Option::None => self,
        }
    }
}

impl VisualizerState {
    /// Set up the viewer state for a window of the given initial size, with
    /// the clock reading `now` as the origin of the ambient rotation. Every
    /// uniform slot is written before the first render.
    pub fn new(width: u32, height: u32, now: u64) -> (s: VisualizerState)
        ensures
            s == VisualizerState::spec_initial(width, height, now),
            s.wf(),
    {
        VisualizerState {
            bank: UniformBank::initial(width, height),
            ctrl: Controller::initial(),
            sched: FrameScheduler::initial(width, height, now),
            active_cube: 0,
        }
    }

    /// Take a resize request. The window-size slot is always written the
    /// requested size, so downstream projection math follows the last request;
    /// the surface is to be reconfigured (and the gesture viewport moves)
    /// only when both dimensions are positive, which the returned flag tells
    /// the GPU layer.
    pub fn resize(&mut self, width: u32, height: u32) -> (configure: bool)
        requires
            old(self).wf(),
        ensures
            *final(self) == old(self).spec_resize(width, height),
            final(self).wf(),
            configure == (width > 0 && height > 0),
    {
        self.bank.write_window_size(width, height);
        if width > 0 && height > 0 {
            self.sched.status = SurfaceStatus::Configured;
            self.sched.viewport_w = width;
            self.sched.viewport_h = height;
            true
        } else {
            false
        }
    }

    /// Run the per-frame update at clock reading `now`: the rotation slot
    /// takes the elapsed time as the angle of the ambient rotation about the
    /// vertical axis, the time slot takes the elapsed time. A pure function
    /// of the clock reading: interaction state plays no part.
    pub fn update(&mut self, now: u64)
        requires
            old(self).wf(),
        ensures
            *final(self) == old(self).spec_update(now),
            final(self).wf(),
    {
        let elapsed = self.sched.elapsed(now);
        self.bank.write_rotation(elapsed);
        self.bank.write_time(elapsed);
    }

    /// Take a primary-button press: from `Idle`, start panning anchored at
    /// the tracked cursor with zero pending camera deltas.
    pub fn primary_press(&mut self)
        requires
            old(self).wf(),
        ensures
            *final(self) == old(self).spec_primary_press(),
            final(self).wf(),
    {
        match self.ctrl.mode {
            Mode::Idle => {
                self.ctrl.mode = Mode::Panning;
                self.ctrl.anchor_x = self.ctrl.cursor_x;
                self.ctrl.anchor_y = self.ctrl.cursor_y;
                self.ctrl.pending_dtheta = 0;
                self.ctrl.pending_ddelta = 0;
            },
            _ => {},
        }
    }

    /// Take a primary-button release: from `Panning`, merge the pending
    /// camera deltas into the committed angles — the elevation clamped away
    /// from the poles, idempotently with the preview clamp — and go idle.
    pub fn primary_release(&mut self)
        requires
            old(self).wf(),
        ensures
            *final(self) == old(self).spec_primary_release(),
            final(self).wf(),
    {
        match self.ctrl.mode {
            Mode::Panning => {
                let theta = sat_add(self.ctrl.committed_theta, self.ctrl.pending_dtheta);
                let delta = clamp_delta(sat_add(self.ctrl.committed_delta, self.ctrl.pending_ddelta));
                self.ctrl.mode = Mode::Idle;
                self.ctrl.committed_theta = theta;
                self.ctrl.committed_delta = delta;
                self.ctrl.pending_dtheta = 0;
                self.ctrl.pending_ddelta = 0;
            },
            _ => {},
        }
    }

    /// Take a secondary-button press: from `Idle`, start adjusting the
    /// intensity window, anchored at the tracked cursor with zero pending
    /// cuts deltas.
    pub fn secondary_press(&mut self)
        requires
            old(self).wf(),
        ensures
            *final(self) == old(self).spec_secondary_press(),
            final(self).wf(),
    {
        match self.ctrl.mode {
            Mode::Idle => {
                self.ctrl.mode = Mode::Adjusting;
                self.ctrl.anchor_x = self.ctrl.cursor_x;
                self.ctrl.anchor_y = self.ctrl.cursor_y;
                self.ctrl.pending_dscale = 0;
                self.ctrl.pending_doffset = 0;
            },
            _ => {},
        }
    }

    /// Take a secondary-button release: from `Adjusting`, merge the pending
    /// cuts deltas into the committed window — scale and offset are
    /// unconstrained — and go idle.
    pub fn secondary_release(&mut self)
        requires
            old(self).wf(),
        ensures
            *final(self) == old(self).spec_secondary_release(),
            final(self).wf(),
    {
        match self.ctrl.mode {
            Mode::Adjusting => {
                let scale = sat_add(self.ctrl.committed_scale, self.ctrl.pending_dscale);
                let offset = sat_add(self.ctrl.committed_offset, self.ctrl.pending_doffset);
                self.ctrl.mode = Mode::Idle;
                self.ctrl.committed_scale = scale;
                self.ctrl.committed_offset = offset;
                self.ctrl.pending_dscale = 0;
                self.ctrl.pending_doffset = 0;
            },
            _ => {},
        }
    }

    /// Take a cursor move to `(x, y)`. While idle only the tracked position
    /// changes — no uniform slot moves. While a gesture is in progress the
    /// travel from the anchor, normalized to the viewport half-extent,
    /// becomes the gesture's pending deltas, and the touched slot (camera
    /// origin, or cuts window) previews them immediately.
    pub fn cursor_move(&mut self, x: i32, y: i32)
        requires
            old(self).wf(),
        ensures
            *final(self) == old(self).spec_cursor_move(x, y),
            final(self).wf(),
    {
        match self.ctrl.mode {
            Mode::Idle => {
                self.ctrl.cursor_x = x;
                self.ctrl.cursor_y = y;
            },
            Mode::Panning => {
                let dx = x as i64 - self.ctrl.anchor_x as i64;
                let dy = y as i64 - self.ctrl.anchor_y as i64;
                let nx = drag_norm(dx, self.sched.viewport_w);
                let ny = drag_norm(dy, self.sched.viewport_h);
                self.ctrl.cursor_x = x;
                self.ctrl.cursor_y = y;
                self.ctrl.pending_dtheta = 2 * nx;
                self.ctrl.pending_ddelta = ny;
                let theta = sat_add(self.ctrl.committed_theta, self.ctrl.pending_dtheta);
                let delta = clamp_delta(sat_add(self.ctrl.committed_delta, self.ctrl.pending_ddelta));
                self.bank.write_camera(theta, delta);
            },
            Mode::Adjusting => {
                let dx = x as i64 - self.ctrl.anchor_x as i64;
                let dy = y as i64 - self.ctrl.anchor_y as i64;
                let nx = drag_norm(dx, self.sched.viewport_w);
                let ny = drag_norm(dy, self.sched.viewport_h);
                self.ctrl.cursor_x = x;
                self.ctrl.cursor_y = y;
                self.ctrl.pending_dscale = ny;
                self.ctrl.pending_doffset = nx;
                let scale = sat_add(self.ctrl.committed_scale, self.ctrl.pending_dscale);
                let offset = sat_add(self.ctrl.committed_offset, self.ctrl.pending_doffset);
                self.bank.write_cuts(scale, offset);
            },
        }
    }

    /// Toggle perspective-vs-orthographic projection: maps directly to the
    /// perspective slot, no other state interaction.
    pub fn set_perspective(&mut self, on: bool)
        requires
            old(self).wf(),
        ensures
            *final(self) == old(self).spec_set_perspective(on),
            final(self).wf(),
    {
        self.bank.write_perspective(on);
    }

    /// Set the displayed intensity normalization range, in micro-units: maps
    /// directly to the min-max slot, no other state interaction.
    pub fn normalize(&mut self, min_value: i64, max_value: i64)
        requires
            old(self).wf(),
        ensures
            *final(self) == old(self).spec_normalize(min_value, max_value),
            final(self).wf(),
    {
        self.bank.write_minmax(min_value, max_value);
    }

    /// Decide what this frame's render should do, before touching the GPU:
    /// present nothing (and report success) while the requested window has no
    /// area or the surface was never configured, otherwise acquire a frame.
    pub fn render_plan(&self) -> (p: RenderPlan)
        ensures
            p == self.spec_render_plan(),
    {
        if self.bank.window_w == 0 || self.bank.window_h == 0 {
            RenderPlan::Skip
        } else {
            match self.sched.status {
                SurfaceStatus::Unconfigured => RenderPlan::Skip,
                SurfaceStatus::Configured => RenderPlan::Acquire,
            }
        }
    }

    /// Decide what follows a frame-acquisition attempt: draw on success,
    /// reconfigure at the current viewport size after a lost surface,
    /// terminate on out-of-memory, and silently skip the frame on any
    /// transient failure.
    pub fn handle_acquire(&self, outcome: AcquireOutcome) -> (a: FrameAction)
        ensures
            a == self.spec_frame_action(outcome),
    {
        match outcome {
            AcquireOutcome::Frame => FrameAction::Draw,
            AcquireOutcome::SurfaceLost => FrameAction::Reconfigure(
                self.sched.viewport_w,
                self.sched.viewport_h,
            ),
            AcquireOutcome::OutOfMemory => FrameAction::Fatal,
            AcquireOutcome::TransientPresent => FrameAction::SkipFrame,
        }
    }

    /// Commit a cube hot-swap. `built` reports whether the GPU layer managed
    /// to build the bind group for the new texture: on `Some(token)` the new
    /// texture becomes the active one; on `None` nothing changes at all, so a
    /// failed swap leaves the previous cube rendering exactly as before.
    pub fn swap_cube(&mut self, built: Option<u64>)
        requires
            old(self).wf(),
        ensures
            *final(self) == old(self).spec_swap_cube(built),
            final(self).wf(),
    {
        match built {
            Some(id) => {
                self.active_cube = id;
            },
            None => {},
        }
    }
}

/// Law: however far a panning gesture dragged, after the matching release the
/// committed elevation lies within the clamp range around the poles.
pub proof fn lemma_release_clamps_delta(s: VisualizerState)
    requires
        s.wf(),
    ensures
        crate::units::DELTA_MIN_MICRO <= s.spec_primary_release().ctrl.committed_delta
            <= crate::units::DELTA_MAX_MICRO,
{
}

/// Law: the frame update is idempotent — updating twice at the same clock
/// reading leaves exactly the state one update leaves, so both write the same
/// rotation and time.
pub proof fn lemma_update_idempotent(s: VisualizerState, now: u64)
    ensures
        s.spec_update(now).spec_update(now) == s.spec_update(now),
{
    assert(s.spec_update(now).spec_update(now) =~= s.spec_update(now));
}

/// Law: a cursor move while idle writes no uniform slot; in particular the
/// camera-origin and cuts slots are exactly what they were.
pub proof fn lemma_idle_move_writes_nothing(s: VisualizerState, x: i32, y: i32)
    requires
        s.ctrl.mode is Idle,
    ensures
        s.spec_cursor_move(x, y).bank == s.bank,
{
}

/// Law: pressing and releasing the primary button with no intervening move
/// commits a zero delta — every committed parameter is exactly what it was.
pub proof fn lemma_press_release_commits_nothing(s: VisualizerState)
    requires
        s.wf(),
        s.ctrl.mode is Idle,
    ensures
        s.spec_primary_press().spec_primary_release().ctrl.committed_theta
            == s.ctrl.committed_theta,
        s.spec_primary_press().spec_primary_release().ctrl.committed_delta
            == s.ctrl.committed_delta,
        s.spec_primary_press().spec_primary_release().ctrl.committed_scale
            == s.ctrl.committed_scale,
        s.spec_primary_press().spec_primary_release().ctrl.committed_offset
            == s.ctrl.committed_offset,
{
}

} // verus!
