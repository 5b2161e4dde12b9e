//! Device pipeline state snapshot, backup and restore.
//!
//! The pipeline slots the compositor overwrites are modeled as plain values:
//! device objects by their opaque handles, floating-point device inputs
//! (blend factor, viewport depth range) by their raw bit patterns.  `save`
//! captures every slot, `restore` rebinds every captured slot and clears the
//! backup, so the pair is strictly call-paired once per frame.

use vstd::prelude::*;

use crate::mesh::ScissorRect;
use crate::GeneralReason;
use crate::RenderError;

verus! {

/// The bit pattern of the 32-bit floating-point value one, used for the
/// upper end of the viewport depth range.
pub const ONE_F32_BITS: u32 = 0x3F80_0000;

/// A viewport: pixel origin and extent, and the depth range as raw 32-bit
/// float bit patterns.
#[derive(Clone, Copy, PartialEq, Eq, Structural, Debug)]
pub struct Viewport {
    pub x: i32,
    pub y: i32,
    pub width: u32,
    pub height: u32,
    pub min_depth_bits: u32,
    pub max_depth_bits: u32,
}

/// The primitive topology slot.
#[derive(Clone, Copy, PartialEq, Eq, Structural, Debug)]
pub enum Topology {
    Undefined,
    PointList,
    LineList,
    TriangleList,
    TriangleStrip,
}

/// A blend-state binding: the state object's handle, the four blend-factor
/// components as raw 32-bit float bit patterns, and the sample mask.
#[derive(Clone, Copy, PartialEq, Eq, Structural, Debug)]
pub struct BlendBinding {
    pub state: u64,
    pub factor_r_bits: u32,
    pub factor_g_bits: u32,
    pub factor_b_bits: u32,
    pub factor_a_bits: u32,
    pub sample_mask: u32,
}

/// A bound host vertex buffer with its stride and offset.
#[derive(Clone, Copy, PartialEq, Eq, Structural, Debug)]
pub struct VertexBufferBinding {
    pub buffer: u64,
    pub stride: u32,
    pub offset: u32,
}

/// A bound host index buffer with its element format code and offset.
#[derive(Clone, Copy, PartialEq, Eq, Structural, Debug)]
pub struct IndexBufferBinding {
    pub buffer: u64,
    pub format: u32,
    pub offset: u32,
}

/// The pixel-shader resource slot: unbound, a host resource, or one of the
/// compositor's own textures (named by its toolkit texture id).
#[derive(Clone, Copy, PartialEq, Eq, Structural, Debug)]
pub enum ResourceSlot {
    Unbound,
    Resource(u64),
    OverlayTexture { id: u64 },
}

/// The vertex-buffer slot: unbound, a host buffer, or a transient buffer
/// freshly uploaded for one compositor mesh (identified by its vertex count).
#[derive(Clone, Copy, PartialEq, Eq, Structural, Debug)]
pub enum VertexBufferSlot {
    Unbound,
    Buffer(VertexBufferBinding),
    MeshBuffer { count: u64 },
}

/// The index-buffer slot: unbound, a host buffer, or a transient buffer
/// freshly uploaded for one compositor mesh (identified by its index count).
#[derive(Clone, Copy, PartialEq, Eq, Structural, Debug)]
pub enum IndexBufferSlot {
    Unbound,
    Buffer(IndexBufferBinding),
    MeshBuffer { count: u64 },
}

/// Every pipeline slot the compositor overwrites during one frame.  Device
/// objects are carried by opaque handle; `None` is an unbound slot.
#[derive(Clone, Copy, PartialEq, Eq, Structural, Debug)]
pub struct PipelineState {
    pub render_target: Option<u64>,
    pub depth_stencil: Option<u64>,
    pub viewport: Option<Viewport>,
    pub blend: Option<BlendBinding>,
    pub raster_state: Option<u64>,
    pub sampler: Option<u64>,
    pub input_layout: Option<u64>,
    pub vertex_shader: Option<u64>,
    pub pixel_shader: Option<u64>,
    pub ps_resource: ResourceSlot,
    pub topology: Topology,
    pub vertex_buffer: VertexBufferSlot,
    pub index_buffer: IndexBufferSlot,
    pub scissor: Option<ScissorRect>,
}

/// The backup slot: at most one captured snapshot at a time.
#[derive(Clone, Copy, PartialEq, Eq, Structural, Debug)]
pub struct BackupState {
    pub saved: Option<PipelineState>,
}

/// `save` captures the given state into the backup slot, replacing whatever
/// was there.
pub open spec fn save_spec(b: BackupState, s: PipelineState) -> BackupState {
    BackupState { saved: Some(s) }
}

/// `restore` on a backup holding a snapshot rebinds that snapshot and clears
/// the slot; on an empty backup it fails and changes nothing.  The result is
/// the new backup, the new pipeline state, and the outcome.
pub open spec fn restore_spec(b: BackupState, s: PipelineState) -> (
    BackupState,
    PipelineState,
    Result<(), RenderError>,
) {
    if b.saved.is_some() {
        (BackupState { saved: None }, b.saved.unwrap(), Ok(()))
    } else {
        (b, s, Err(RenderError::General(GeneralReason::MissingBackup)))
    }
}

impl BackupState {
    /// The captured snapshot, if any.
    pub open spec fn saved(self) -> Option<PipelineState> {
        self.saved
    }

    /// A fresh backup with an empty slot.
    pub fn new() -> (r: BackupState)
        ensures
            r.saved().is_none(),
    {
        BackupState { saved: None }
    }

    /// Captures every pipeline slot the compositor is about to overwrite.
    pub fn save(&mut self, state: &PipelineState)
        ensures
            *final(self) == save_spec(*old(self), *state),
            final(self).saved() == Some(*state),
    {
        self.saved = Some(*state);
    }

    /// Rebinds every captured slot and releases the capture.  Calling
    /// `restore` without a matching prior `save` is a contract breach and is
    /// surfaced as a fatal error, leaving everything unchanged.
    pub fn restore(&mut self, state: &mut PipelineState) -> (r: Result<(), RenderError>)
        ensures
            (*final(self), *final(state), r) == restore_spec(*old(self), *old(state)),
            old(self).saved().is_some() ==> r == Ok::<(), RenderError>(())
                && *final(state) == old(self).saved().unwrap() && final(self).saved().is_none(),
            old(self).saved().is_none() ==> r == Err::<(), RenderError>(
                RenderError::General(GeneralReason::MissingBackup),
            ) && *final(state) == *old(state) && *final(self) == *old(self),
    {
        match self.saved {
            Some(snapshot) => {
                *state = snapshot;
                self.saved = None;
                Ok(())
            },
            None => Err(RenderError::General(GeneralReason::MissingBackup)),
        }
    }
}

/// Law: `save` followed by `restore`, with no pipeline mutation in between,
/// succeeds and leaves every captured slot exactly as it was before the
/// `save`, whatever the backup held before.
pub proof fn lemma_save_restore_identity(b: BackupState, s: PipelineState)
    ensures
        ({
            let b1 = save_spec(b, s);
            let (b2, s2, r) = restore_spec(b1, s);
            r == Ok::<(), RenderError>(()) && s2 == s && b2.saved().is_none()
        }),
{
}

} // verus!
