//! Interactive viewer core for volumetric scalar fields: the render/interaction
//! state manager of a GPU raymarching visualizer.
//!
//! The crate owns the small, stateful heart of the viewer: the seven uniform
//! slots fed to the shader, the pointer-gesture state machine that turns drags
//! into camera and intensity-window parameters, the frame scheduler that
//! decides when the surface is (re)configured and when a frame is drawn, and
//! the atomic hot-swap of the active volume texture. Angles and window
//! parameters are held in fixed-point micro-units (one millionth of a radian
//! or of a unit); the unverified GPU layer converts them to the shader's
//! floating-point uniforms.

pub mod cards;
pub mod cube;
pub mod interaction;
pub mod scheduler;
pub mod state;
pub mod uniforms;
pub mod units;
