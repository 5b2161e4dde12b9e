//! Verified core of a per-frame overlay compositor: it turns an immediate-mode
//! GUI toolkit's draw output (vertex lists, texture deltas, raw window
//! messages) into an ordered plan of GPU commands for a rasterization
//! pipeline, while keeping the host application's own pipeline state intact.
//!
//! The device itself, the windowing layer and the GUI toolkit are external
//! collaborators: a host embedding drives them and hands this crate plain
//! values (pixel coordinates, texture ids, resource handles, raw message
//! words).  Everything the compositor decides — the clip-space transform, the
//! texture mapping, the pipeline-state snapshot and its restoration, the
//! input queue, and the exact order of draw commands — is stated in contracts
//! and proved here.

use vstd::prelude::*;

pub mod app;
pub mod backup;
pub mod input_manager;
pub mod mesh;
pub mod pipeline;
pub mod texture;

verus! {

/// Reasons carried by [`RenderError::General`]: internal contract violations
/// and model-level resource failures, each with a fixed description.
#[derive(Clone, Copy, PartialEq, Eq, Structural, Debug)]
pub enum GeneralReason {
    /// The toolkit produced a tessellated primitive that is not a plain
    /// filled mesh; paint callbacks are unsupported and fatal.
    UnsupportedPrimitive,
    /// `restore` was called with no matching prior `save`.
    MissingBackup,
    /// A texture delta asked for a texture larger than the device limit.
    TextureAllocation,
}

/// Error taxonomy of the compositor.
#[derive(Clone, Copy, PartialEq, Eq, Structural, Debug)]
pub enum RenderError {
    /// An internal invariant breach or model-level failure with a fixed reason.
    General(GeneralReason),
    /// A failed device or resource call, wrapping the platform's error code.
    Platform(i32),
}

} // verus!
