//! Control logic of the day/night lighting runtime: which smoothing window a
//! time step uses, what the runtime state does on activation and
//! deactivation, which managed lights must be spawned, what each lighting
//! camera gets written or inserted, and how the write counters move.
//!
//! The numeric lighting model (sun paths, gradients, colour temperature,
//! fog and exposure curves) works on floating-point values and lives with
//! the engine glue in `app/`.
pub mod camera;
pub mod runtime;
pub mod smoothing;
pub mod writes;

pub use camera::{
    counts_as_write, plan_camera, CameraComponents, CameraPlan, ComponentAction, LightingCamera,
};
pub use runtime::{LightingRuntimeState, LightingUpdate, ManagedLightConfig, SpawnPlan};
pub use smoothing::{smoothing_window, SmoothingWindow, StepMode};
pub use writes::{update_flag, WriteCounters, WriteTarget};
