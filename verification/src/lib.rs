//! Loading lava architectures for magma's plan and apply pipeline.
//!
//! [`synthesize`], [`synthesize_source`], [`synthesize_inline`] and
//! [`synthesize_bundled`] start a synthesis. What it needs from outside (the
//! source file, the runtimes, the bundled registry, the renderers) is asked for
//! one [`Step`] at a time, and every decision in between is made here.
//! [`plan_changes`] plans a synthesized configuration against a state that
//! holds nothing and reports the changes.
//!
//! [`laws`] states what holds of whole syntheses, and [`calls`] what holds of
//! each call.

pub mod args;
pub mod bindings;
pub mod calls;
pub mod changes;
pub mod error;
pub mod json;
pub mod laws;
pub mod magma;
pub mod paths;
pub mod plan;
pub mod synthesis;
pub mod text;

pub use args::LavaPlanArgs;
pub use bindings::{ArtifactBinding, ArtifactBinding as Binding};
pub use changes::{
    baseline_state, plan_changes, planned_change, planned_change_from_resource_change,
    planned_changes, report_plan, PlannedChange,
};
pub use error::LavaError;
pub use magma::{Action, PriorState, ResourceDelta};
pub use plan::{LavaPlan, RenderCrossplane};
pub use synthesis::{
    select_runtime, synthesize, synthesize_bundled, synthesize_inline, synthesize_source, Evaluate,
    Evaluation, Job, LavaSource, LoadBundled, LookUpInterface, PickRuntime, ProbePath, Render,
    Runtime, Step, Target,
};
