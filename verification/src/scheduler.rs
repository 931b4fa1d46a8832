//! Surface configuration state and the per-frame update/render policy.
//!
//! The scheduler starts `Unconfigured` and becomes `Configured` on the first
//! resize with a non-empty viewport. Each frame it is asked for a plan (skip,
//! or acquire a presentable frame), and, once the unverified GPU layer reports
//! how the acquisition went, for the action that follows: draw, reconfigure
//! the surface at the current size, skip the frame, or give up.

use vstd::prelude::*;

verus! {

/// Whether the presentation surface has ever been configured.
#[verifier::ext_equal]
#[derive(Clone, Copy, Debug, PartialEq, Eq, Structural)]
pub enum SurfaceStatus {
    /// No configuration has happened yet; nothing can be drawn.
    Unconfigured,
    /// The surface was configured at `FrameScheduler::viewport` size.
    Configured,
}

/// What `render` should do this frame, before touching the GPU.
#[verifier::ext_equal]
#[derive(Clone, Copy, Debug, PartialEq, Eq, Structural)]
pub enum RenderPlan {
    /// The viewport is empty or the surface is unconfigured: present nothing
    /// and report success.
    Skip,
    /// Acquire the next presentable frame and draw.
    Acquire,
}

/// How acquiring the next presentable frame went.
#[verifier::ext_equal]
#[derive(Clone, Copy, Debug, PartialEq, Eq, Structural)]
pub enum AcquireOutcome {
    /// A frame is available.
    Frame,
    /// The surface was lost and must be reconfigured.
    SurfaceLost,
    /// The device is out of memory.
    OutOfMemory,
    /// A transient failure (outdated, timeout); the next frame will retry.
    TransientPresent,
}

/// The action the frame loop takes after an acquisition attempt.
#[verifier::ext_equal]
#[derive(Clone, Copy, Debug, PartialEq, Eq, Structural)]
pub enum FrameAction {
    /// Draw and present the acquired frame.
    Draw,
    /// Reconfigure the surface at the carried size, then retry next frame.
    Reconfigure(u32, u32),
    /// Fatal: propagate to the caller, which should terminate.
    Fatal,
    /// Skip this frame; the failure heals itself by the next one.
    SkipFrame,
}

/// Surface-configuration state and the clock origin of the ambient rotation.
#[verifier::ext_equal]
#[derive(Clone, Copy, Debug, PartialEq, Eq, Structural)]
pub struct FrameScheduler {
    /// Whether the surface has ever been configured.
    pub status: SurfaceStatus,
    /// Width the surface was last configured at (the gesture viewport), pixels.
    pub viewport_w: u32,
    /// Height the surface was last configured at, pixels.
    pub viewport_h: u32,
    /// Clock reading at construction, microseconds; elapsed time is measured
    /// from here.
    pub start_micros: u64,
}

impl FrameScheduler {
    /// Time elapsed between the clock origin and `now`, zero if the clock ran
    /// backwards.
    pub open spec fn spec_elapsed(self, now: u64) -> u64 {
        if now >= self.start_micros {
            (now - self.start_micros) as u64
        } else {
            0
        }
    }

    /// The scheduler at startup: unconfigured, remembering the initial window
    /// size as the viewport and `now` as the clock origin.
    pub open spec fn spec_initial(width: u32, height: u32, now: u64) -> FrameScheduler {
        FrameScheduler {
            status: SurfaceStatus::Unconfigured,
            viewport_w: width,
            viewport_h: height,
            start_micros: now,
        }
    }

    /// Build the startup scheduler.
    pub fn initial(width: u32, height: u32, now: u64) -> (s: FrameScheduler)
        ensures
            s == FrameScheduler::spec_initial(width, height, now),
    {
        FrameScheduler {
            status: SurfaceStatus::Unconfigured,
            viewport_w: width,
            viewport_h: height,
            start_micros: now,
        }
    }

    /// Time elapsed since the clock origin, zero if the clock ran backwards.
    pub fn elapsed(&self, now: u64) -> (e: u64)
        ensures
            e == self.spec_elapsed(now),
    {
        if now >= self.start_micros {
            now - self.start_micros
        } else {
            0
        }
    }
}

} // verus!
