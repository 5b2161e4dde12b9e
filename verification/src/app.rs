//! Frame orchestrator: sequences input collection, texture-delta
//! application, mesh conversion and the per-frame GPU command plan, with the
//! host's pipeline state saved first and restored last.
//!
//! The toolkit runs outside this crate: the host drains the input queue with
//! [`EguiDx11::begin_frame`], runs the UI callback and tessellation, and
//! hands the resulting shapes and texture deltas to
//! [`EguiDx11::present_frame`], which returns the ordered command plan the
//! host then executes against the device.  The contracts pin the plan down:
//! replaying it over any starting pipeline state ends exactly where it
//! started, meshes are drawn in tessellation order with their clamped
//! scissor bounds and their texture binding, and no command at all is issued
//! while the render-target view is absent (mid-resize).

use vstd::prelude::*;

use crate::backup::BackupState;
use crate::backup::BlendBinding;
use crate::backup::IndexBufferSlot;
use crate::backup::PipelineState;
use crate::backup::ResourceSlot;
use crate::backup::Topology;
use crate::backup::VertexBufferSlot;
use crate::backup::Viewport;
use crate::backup::ONE_F32_BITS;
use crate::input_manager::CollectedInput;
use crate::input_manager::InputManager;
use crate::input_manager::InputResult;
use crate::input_manager::classify_spec;
use crate::mesh::ClipRectUi;
use crate::mesh::GpuMesh;
use crate::mesh::ScissorRect;
use crate::mesh::ScreenSize;
use crate::mesh::UiMesh;
use crate::mesh::mesh_converted;
use crate::mesh::scissor_spec;
use crate::texture::TexModel;
use crate::texture::TextureAllocator;
use crate::texture::TextureDelta;
use crate::texture::apply_delta_spec;
use crate::texture::apply_deltas_spec;
use crate::texture::deltas_view;
use crate::GeneralReason;
use crate::RenderError;

verus! {

/// One tessellated primitive from the toolkit: a filled mesh, or a paint
/// callback, which the compositor does not support.
#[derive(Clone, PartialEq, Eq, Debug)]
pub enum Primitive {
    Mesh(UiMesh),
    PaintCallback,
}

/// A tessellated primitive with its clip rectangle, both in UI pixel space.
#[derive(Clone, PartialEq, Eq, Debug)]
pub struct ClippedPrimitive {
    pub clip: ClipRectUi,
    pub primitive: Primitive,
}

/// Everything one toolkit frame hands the orchestrator: the texture deltas
/// and the tessellated primitives, in paint order.
#[derive(Clone, PartialEq, Eq, Debug)]
pub struct FrameOutput {
    pub textures_delta: Vec<TextureDelta>,
    pub primitives: Vec<ClippedPrimitive>,
}

impl FrameOutput {
    /// Patches are well formed and every mesh vertex fits the transform.
    pub open spec fn wf(self) -> bool {
        &&& forall|i: int|
            0 <= i < self.textures_delta@.len() ==> (#[trigger] self.textures_delta@[i]).wf()
        &&& forall|i: int|
            0 <= i < self.primitives@.len() ==> (match (#[trigger] self.primitives@[i]).primitive {
                Primitive::Mesh(m) => m.wf(),
                Primitive::PaintCallback => true,
            })
    }
}

/// One command of the per-frame plan, executed by the host against the
/// device in order.
#[derive(Clone, PartialEq, Eq, Debug)]
pub enum GpuCmd {
    SetBlend { binding: BlendBinding },
    SetRaster { state: u64 },
    SetSampler { state: u64 },
    SetViewport { viewport: Viewport },
    SetRenderTarget { view: Option<u64> },
    SetTopology { topology: Topology },
    SetInputLayout { layout: u64 },
    SetShaders { vertex: u64, pixel: u64 },
    SetScissor { rect: ScissorRect },
    BindTexture { id: u64 },
    SetMeshBuffers { mesh: GpuMesh },
    DrawIndexed { count: u64 },
    RestoreState { snapshot: PipelineState },
}

/// The pipeline state after one command.  `SetMeshBuffers` uploads fresh
/// transient buffers sized exactly to its mesh and binds them;
/// `DrawIndexed` changes no state; `RestoreState` rebinds every slot of its
/// snapshot.
pub open spec fn run_cmd_spec(s: PipelineState, c: GpuCmd) -> PipelineState {
    match c {
        GpuCmd::SetBlend { binding } => PipelineState { blend: Some(binding), ..s },
        GpuCmd::SetRaster { state } => PipelineState { raster_state: Some(state), ..s },
        GpuCmd::SetSampler { state } => PipelineState { sampler: Some(state), ..s },
        GpuCmd::SetViewport { viewport } => PipelineState { viewport: Some(viewport), ..s },
        GpuCmd::SetRenderTarget { view } => PipelineState {
            render_target: view,
            depth_stencil: None,
            ..s
        },
        GpuCmd::SetTopology { topology } => PipelineState { topology, ..s },
        GpuCmd::SetInputLayout { layout } => PipelineState { input_layout: Some(layout), ..s },
        GpuCmd::SetShaders { vertex, pixel } => PipelineState {
            vertex_shader: Some(vertex),
            pixel_shader: Some(pixel),
            ..s
        },
        GpuCmd::SetScissor { rect } => PipelineState { scissor: Some(rect), ..s },
        GpuCmd::BindTexture { id } => PipelineState {
            ps_resource: ResourceSlot::OverlayTexture { id },
            ..s
        },
        GpuCmd::SetMeshBuffers { mesh } => PipelineState {
            vertex_buffer: VertexBufferSlot::MeshBuffer { count: mesh.vertices@.len() as u64 },
            index_buffer: IndexBufferSlot::MeshBuffer { count: mesh.indices@.len() as u64 },
            ..s
        },
        GpuCmd::DrawIndexed { count } => s,
        GpuCmd::RestoreState { snapshot } => snapshot,
    }
}

/// The pipeline state after a whole command list.
pub open spec fn run_cmds_spec(s: PipelineState, cs: Seq<GpuCmd>) -> PipelineState
    decreases cs.len(),
{
    if cs.len() == 0 {
        s
    } else {
        run_cmds_spec(run_cmd_spec(s, cs[0]), cs.drop_first())
    }
}

/// What one indexed draw sees: the bindings in effect at the moment it is
/// issued, and its index count.
#[derive(Clone, Copy, PartialEq, Eq, Structural, Debug)]
pub struct DrawRecord {
    pub render_target: Option<u64>,
    pub depth_stencil: Option<u64>,
    pub viewport: Option<Viewport>,
    pub blend: Option<BlendBinding>,
    pub raster_state: Option<u64>,
    pub sampler: Option<u64>,
    pub input_layout: Option<u64>,
    pub vertex_shader: Option<u64>,
    pub pixel_shader: Option<u64>,
    pub topology: Topology,
    pub scissor: Option<ScissorRect>,
    pub texture: ResourceSlot,
    pub vertex_buffer: VertexBufferSlot,
    pub index_buffer: IndexBufferSlot,
    pub count: u64,
}

/// The draw record captured from a pipeline state.
pub open spec fn record_at(s: PipelineState, count: u64) -> DrawRecord {
    DrawRecord {
        render_target: s.render_target,
        depth_stencil: s.depth_stencil,
        viewport: s.viewport,
        blend: s.blend,
        raster_state: s.raster_state,
        sampler: s.sampler,
        input_layout: s.input_layout,
        vertex_shader: s.vertex_shader,
        pixel_shader: s.pixel_shader,
        topology: s.topology,
        scissor: s.scissor,
        texture: s.ps_resource,
        vertex_buffer: s.vertex_buffer,
        index_buffer: s.index_buffer,
        count,
    }
}

/// The fixed configuration every overlay draw runs under: the overlay's
/// render target with no depth stencil, the full-client-area viewport with
/// unit depth range, straight-alpha blending with zero blend factor and a
/// full sample mask, the overlay's raster state, sampler, input layout and
/// shader pair, and a triangle list.
pub open spec fn draw_config_ok(
    d: DrawRecord,
    inst: EguiDx11,
    view: u64,
    screen: ScreenSize,
) -> bool {
    &&& d.render_target == Some(view)
    &&& d.depth_stencil.is_none()
    &&& d.viewport == Some(viewport_spec(screen))
    &&& d.blend == Some(
        BlendBinding {
            state: inst.blend_state,
            factor_r_bits: 0,
            factor_g_bits: 0,
            factor_b_bits: 0,
            factor_a_bits: 0,
            sample_mask: 0xffff_ffff,
        },
    )
    &&& d.raster_state == Some(inst.raster_state)
    &&& d.sampler == Some(inst.sampler_state)
    &&& d.input_layout == Some(inst.input_layout)
    &&& d.vertex_shader == Some(inst.vertex_shader)
    &&& d.pixel_shader == Some(inst.pixel_shader)
    &&& d.topology == Topology::TriangleList
}

/// A pipeline state carrying the overlay's fixed configuration; a draw
/// issued under it gets a record meeting [`draw_config_ok`].
pub open spec fn configured_ok(
    s: PipelineState,
    inst: EguiDx11,
    view: u64,
    screen: ScreenSize,
) -> bool {
    &&& s.render_target == Some(view)
    &&& s.depth_stencil.is_none()
    &&& s.viewport == Some(viewport_spec(screen))
    &&& s.blend == Some(
        BlendBinding {
            state: inst.blend_state,
            factor_r_bits: 0,
            factor_g_bits: 0,
            factor_b_bits: 0,
            factor_a_bits: 0,
            sample_mask: 0xffff_ffff,
        },
    )
    &&& s.raster_state == Some(inst.raster_state)
    &&& s.sampler == Some(inst.sampler_state)
    &&& s.input_layout == Some(inst.input_layout)
    &&& s.vertex_shader == Some(inst.vertex_shader)
    &&& s.pixel_shader == Some(inst.pixel_shader)
    &&& s.topology == Topology::TriangleList
}

/// All draws a command list issues when replayed from `s`, each with the
/// bindings in effect at that point, in order.
pub open spec fn draws_spec(s: PipelineState, cs: Seq<GpuCmd>) -> Seq<DrawRecord>
    decreases cs.len(),
{
    if cs.len() == 0 {
        Seq::empty()
    } else {
        let rest = draws_spec(run_cmd_spec(s, cs[0]), cs.drop_first());
        match cs[0] {
            GpuCmd::DrawIndexed { count } => seq![record_at(s, count)] + rest,
            _ => rest,
        }
    }
}

/// The meshes a command list uploads, in order.
pub open spec fn uploaded_spec(cs: Seq<GpuCmd>) -> Seq<GpuMesh>
    decreases cs.len(),
{
    if cs.len() == 0 {
        Seq::empty()
    } else {
        let rest = uploaded_spec(cs.drop_first());
        match cs[0] {
            GpuCmd::SetMeshBuffers { mesh } => seq![mesh] + rest,
            _ => rest,
        }
    }
}

/// A primitive the compositor submits: a filled mesh with at least one
/// vertex and one index.  Degenerate meshes are dropped, paint callbacks
/// are fatal and never submitted.
pub open spec fn is_kept(p: ClippedPrimitive) -> bool {
    match p.primitive {
        Primitive::Mesh(m) => m.vertices@.len() > 0 && m.indices@.len() > 0,
        Primitive::PaintCallback => false,
    }
}

/// The primitives the compositor submits, in paint order.
pub open spec fn kept_prims(ps: Seq<ClippedPrimitive>) -> Seq<ClippedPrimitive>
    decreases ps.len(),
{
    if ps.len() == 0 {
        Seq::empty()
    } else {
        (if is_kept(ps[0]) {
            seq![ps[0]]
        } else {
            Seq::empty()
        }) + kept_prims(ps.drop_first())
    }
}

/// The mesh of a kept primitive.
pub open spec fn prim_mesh(p: ClippedPrimitive) -> UiMesh {
    match p.primitive {
        Primitive::Mesh(m) => m,
        Primitive::PaintCallback => arbitrary(),
    }
}

/// Some primitive is a paint callback.
pub open spec fn has_callback(ps: Seq<ClippedPrimitive>) -> bool {
    exists|i: int|
        0 <= i < ps.len() && (#[trigger] ps[i]).primitive matches Primitive::PaintCallback
}

/// Appending one command: the final state is the command applied to the
/// previous final state.
pub proof fn lemma_run_cmds_push(s: PipelineState, cs: Seq<GpuCmd>, c: GpuCmd)
    ensures
        run_cmds_spec(s, cs.push(c)) == run_cmd_spec(run_cmds_spec(s, cs), c),
    decreases cs.len(),
{
    if cs.len() == 0 {
        assert(cs.push(c)[0] == c);
        assert(cs.push(c).drop_first() =~= Seq::<GpuCmd>::empty());
        assert(run_cmds_spec(run_cmd_spec(s, c), Seq::<GpuCmd>::empty()) == run_cmd_spec(
            s,
            c,
        ));
        assert(run_cmds_spec(s, Seq::<GpuCmd>::empty()) == s);
    } else {
        assert(cs.push(c)[0] == cs[0]);
        assert(cs.push(c).drop_first() =~= cs.drop_first().push(c));
        lemma_run_cmds_push(run_cmd_spec(s, cs[0]), cs.drop_first(), c);
    }
}

/// Appending one command: a draw appends its record, captured at the
/// previous final state; anything else leaves the draws unchanged.
pub proof fn lemma_draws_push(s: PipelineState, cs: Seq<GpuCmd>, c: GpuCmd)
    ensures
        draws_spec(s, cs.push(c)) == (match c {
            GpuCmd::DrawIndexed { count } => draws_spec(s, cs).push(
                record_at(run_cmds_spec(s, cs), count),
            ),
            _ => draws_spec(s, cs),
        }),
    decreases cs.len(),
{
    if cs.len() == 0 {
        assert(cs.push(c)[0] == c);
        assert(cs.push(c).drop_first() =~= Seq::<GpuCmd>::empty());
        assert(draws_spec(run_cmd_spec(s, c), Seq::<GpuCmd>::empty()) == Seq::<
            DrawRecord,
        >::empty());
        match c {
            GpuCmd::DrawIndexed { count } => {
                assert(draws_spec(s, cs.push(c)) =~= draws_spec(s, cs).push(
                    record_at(run_cmds_spec(s, cs), count),
                ));
            },
            _ => {},
        }
    } else {
        assert(cs.push(c)[0] == cs[0]);
        assert(cs.push(c).drop_first() =~= cs.drop_first().push(c));
        let s2 = run_cmd_spec(s, cs[0]);
        lemma_draws_push(s2, cs.drop_first(), c);
        match c {
            GpuCmd::DrawIndexed { count } => {
                assert(draws_spec(s, cs.push(c)) =~= draws_spec(s, cs).push(
                    record_at(run_cmds_spec(s, cs), count),
                ));
            },
            _ => {
                assert(draws_spec(s, cs.push(c)) =~= draws_spec(s, cs));
            },
        }
    }
}

/// Appending one command: a mesh upload appends its mesh; anything else
/// leaves the uploads unchanged.
pub proof fn lemma_uploaded_push(cs: Seq<GpuCmd>, c: GpuCmd)
    ensures
        uploaded_spec(cs.push(c)) == (match c {
            GpuCmd::SetMeshBuffers { mesh } => uploaded_spec(cs).push(mesh),
            _ => uploaded_spec(cs),
        }),
    decreases cs.len(),
{
    if cs.len() == 0 {
        assert(cs.push(c)[0] == c);
        assert(cs.push(c).drop_first() =~= Seq::<GpuCmd>::empty());
        assert(uploaded_spec(Seq::<GpuCmd>::empty()) == Seq::<GpuMesh>::empty());
        match c {
            GpuCmd::SetMeshBuffers { mesh } => {
                assert(uploaded_spec(cs.push(c)) =~= uploaded_spec(cs).push(mesh));
            },
            _ => {},
        }
    } else {
        assert(cs.push(c)[0] == cs[0]);
        assert(cs.push(c).drop_first() =~= cs.drop_first().push(c));
        lemma_uploaded_push(cs.drop_first(), c);
        match c {
            GpuCmd::SetMeshBuffers { mesh } => {
                assert(uploaded_spec(cs.push(c)) =~= uploaded_spec(cs).push(mesh));
            },
            _ => {
                assert(uploaded_spec(cs.push(c)) =~= uploaded_spec(cs));
            },
        }
    }
}

/// The outcome of one presented frame: the command plan to execute, a
/// recoverable texture failure if one happened (the frame proceeds with
/// stale textures), and whether a repaint was requested.
pub struct FrameOutcome {
    pub cmds: Vec<GpuCmd>,
    pub texture_error: Option<RenderError>,
    pub repaint_requested: bool,
}

/// One overlay instance, bound to one swapchain-and-window pair.  Device
/// objects — the render-target view, shaders, input layout and the fixed
/// blend, raster and sampler states, all created by the host at
/// initialization — are carried by opaque handle.
pub struct EguiDx11 {
    pub render_view: Option<u64>,
    pub hwnd: u64,
    pub input_layout: u64,
    pub vertex_shader: u64,
    pub pixel_shader: u64,
    pub blend_state: u64,
    pub raster_state: u64,
    pub sampler_state: u64,
    pub tex_alloc: TextureAllocator,
    pub input_manager: InputManager,
    pub backup: BackupState,
    pub should_reset: bool,
}

/// The fixed device objects and the window handle are the same in both
/// states.
pub open spec fn same_device_objects(pre: EguiDx11, post: EguiDx11) -> bool {
    &&& post.hwnd == pre.hwnd
    &&& post.input_layout == pre.input_layout
    &&& post.vertex_shader == pre.vertex_shader
    &&& post.pixel_shader == pre.pixel_shader
    &&& post.blend_state == pre.blend_state
    &&& post.raster_state == pre.raster_state
    &&& post.sampler_state == pre.sampler_state
}

/// The full-client-area viewport with depth range zero to one.
pub open spec fn viewport_spec(screen: ScreenSize) -> Viewport {
    Viewport {
        x: 0,
        y: 0,
        width: screen.width,
        height: screen.height,
        min_depth_bits: 0,
        max_depth_bits: ONE_F32_BITS,
    }
}

/// Builds the viewport covering the whole client area, depth zero to one.
pub fn viewport_for(screen: ScreenSize) -> (r: Viewport)
    ensures
        r == viewport_spec(screen),
{
    Viewport {
        x: 0,
        y: 0,
        width: screen.width,
        height: screen.height,
        min_depth_bits: 0,
        max_depth_bits: ONE_F32_BITS,
    }
}

/// Appends one command to a plan, carrying along what it does to the replay
/// state, the draw records and the uploaded meshes.
fn push_cmd(cmds: &mut Vec<GpuCmd>, c: GpuCmd)
    ensures
        final(cmds)@ == old(cmds)@.push(c),
        forall|s: PipelineState| #[trigger] run_cmds_spec(s, final(cmds)@) == run_cmd_spec(
            run_cmds_spec(s, old(cmds)@),
            c,
        ),
        forall|s: PipelineState| #[trigger] draws_spec(s, final(cmds)@) == (match c {
            GpuCmd::DrawIndexed { count } => draws_spec(s, old(cmds)@).push(
                record_at(run_cmds_spec(s, old(cmds)@), count),
            ),
            _ => draws_spec(s, old(cmds)@),
        }),
        uploaded_spec(final(cmds)@) == (match c {
            GpuCmd::SetMeshBuffers { mesh } => uploaded_spec(old(cmds)@).push(mesh),
            _ => uploaded_spec(old(cmds)@),
        }),
{
    let ghost pre = cmds@;
    let ghost cc = c;
    cmds.push(c);
    proof {
        assert forall|s: PipelineState| #[trigger] run_cmds_spec(s, cmds@) == run_cmd_spec(
            run_cmds_spec(s, pre),
            cc,
        ) by {
            lemma_run_cmds_push(s, pre, cc);
        }
        assert forall|s: PipelineState| #[trigger] draws_spec(s, cmds@) == (match cc {
            GpuCmd::DrawIndexed { count } => draws_spec(s, pre).push(
                record_at(run_cmds_spec(s, pre), count),
            ),
            _ => draws_spec(s, pre),
        }) by {
            lemma_draws_push(s, pre, cc);
        }
        lemma_uploaded_push(pre, cc);
    }
}

impl EguiDx11 {
    /// The instance is between frames: textures well formed, no pipeline
    /// snapshot pending.
    pub open spec fn wf(self) -> bool {
        &&& self.tex_alloc.wf()
        &&& self.backup.saved().is_none()
    }

    /// Binds a fresh overlay instance to a window and its device objects:
    /// the render-target view built from the current backbuffer, the
    /// compiled shaders, the input layout, and the fixed blend, raster and
    /// sampler states, each by handle.  The host aborts initialization
    /// before this point if any of those objects could not be created.
    pub fn new(
        hwnd: u64,
        render_view: u64,
        input_layout: u64,
        vertex_shader: u64,
        pixel_shader: u64,
        blend_state: u64,
        raster_state: u64,
        sampler_state: u64,
    ) -> (r: EguiDx11)
        ensures
            r.wf(),
            r.hwnd == hwnd,
            r.render_view == Some(render_view),
            r.input_layout == input_layout,
            r.vertex_shader == vertex_shader,
            r.pixel_shader == pixel_shader,
            r.blend_state == blend_state,
            r.raster_state == raster_state,
            r.sampler_state == sampler_state,
            r.tex_alloc@ == Map::<u64, TexModel>::empty(),
            r.input_manager.events@.len() == 0,
            !r.should_reset,
    {
        EguiDx11 {
            render_view: Some(render_view),
            hwnd,
            input_layout,
            vertex_shader,
            pixel_shader,
            blend_state,
            raster_state,
            sampler_state,
            tex_alloc: TextureAllocator::new(),
            input_manager: InputManager::new(),
            backup: BackupState::new(),
            should_reset: false,
        }
    }

    /// Forwards one raw window message to the input manager; everything
    /// else of the instance is untouched.  Returns whether the GUI consumed
    /// the message, so the host can decide on pass-through.
    pub fn wnd_proc(&mut self, msg: u32, wparam: u64, lparam: u64) -> (r: InputResult)
        ensures
            r == (if classify_spec(msg, wparam, lparam).is_some() {
                InputResult::Consumed
            } else {
                InputResult::Ignored
            }),
            classify_spec(msg, wparam, lparam).is_some() ==> final(self).input_manager.events@
                == old(self).input_manager.events@.push(
                classify_spec(msg, wparam, lparam).unwrap(),
            ),
            classify_spec(msg, wparam, lparam).is_none() ==> final(self).input_manager == old(
                self,
            ).input_manager,
            final(self).render_view == old(self).render_view,
            final(self).tex_alloc == old(self).tex_alloc,
            final(self).backup == old(self).backup,
            final(self).should_reset == old(self).should_reset,
            same_device_objects(*old(self), *final(self)),
    {
        self.input_manager.process(msg, wparam, lparam)
    }

    /// Drains the input queue for this frame: the accumulated events in
    /// arrival order plus the coherent immediate state; the queue is empty
    /// afterwards.
    pub fn begin_frame(&mut self) -> (r: CollectedInput)
        ensures
            r.events@ == old(self).input_manager.events@,
            final(self).input_manager.events@.len() == 0,
            final(self).render_view == old(self).render_view,
            final(self).tex_alloc == old(self).tex_alloc,
            final(self).backup == old(self).backup,
            final(self).should_reset == old(self).should_reset,
            same_device_objects(*old(self), *final(self)),
    {
        self.input_manager.collect_input()
    }

    /// Presents one toolkit frame: saves the host's pipeline state, applies
    /// the texture deltas (a failed allocation is surfaced but the frame
    /// proceeds with stale textures), converts the tessellated primitives
    /// to clip space dropping degenerate meshes, and returns the ordered
    /// command plan — fixed state configuration, then per mesh its clamped
    /// scissor, its texture binding (none when the id is absent), a fresh
    /// buffer upload and an indexed draw, and last the restoration of every
    /// saved slot.  Replaying the plan over the starting pipeline state ends
    /// exactly there: the overlay is invisible to the host.  While the
    /// render-target view is absent (mid-resize) the plan is empty: no draw
    /// is issued against a missing render target.  A paint-callback
    /// primitive is fatal: the frame returns an error and no plan.
    #[verifier::loop_isolation(false)]
    #[verifier::rlimit(100)]
    pub fn present_frame(
        &mut self,
        pipeline: &PipelineState,
        screen: ScreenSize,
        frame: FrameOutput,
    ) -> (r: Result<FrameOutcome, RenderError>)
        requires
            old(self).wf(),
            screen.wf(),
            frame.wf(),
        ensures
            final(self).wf(),
            final(self).render_view == old(self).render_view,
            final(self).input_manager == old(self).input_manager,
            !final(self).should_reset,
            same_device_objects(*old(self), *final(self)),
            r.is_err() <==> has_callback(frame.primitives@),
            r.is_err() ==> r == Err::<FrameOutcome, RenderError>(
                RenderError::General(GeneralReason::UnsupportedPrimitive),
            ),
            ({
                let am = apply_deltas_spec(
                    old(self).tex_alloc@,
                    deltas_view(frame.textures_delta@),
                );
                am.is_some() ==> final(self).tex_alloc@ == am.unwrap()
            }),
            ({
                let dv = deltas_view(frame.textures_delta@);
                let am = apply_deltas_spec(old(self).tex_alloc@, dv);
                am.is_none() ==> (exists|k: int|
                    #![trigger dv.take(k)]
                    0 <= k < dv.len() && ({
                        let pm = apply_deltas_spec(old(self).tex_alloc@, dv.take(k));
                        &&& pm.is_some()
                        &&& apply_delta_spec(pm.unwrap(), dv[k]).is_none()
                        &&& final(self).tex_alloc@ == pm.unwrap()
                    }))
            }),
            r.is_ok() ==> ({
                let o = r.unwrap();
                let am = apply_deltas_spec(
                    old(self).tex_alloc@,
                    deltas_view(frame.textures_delta@),
                );
                let kept = kept_prims(frame.primitives@);
                let ds = draws_spec(*pipeline, o.cmds@);
                let ups = uploaded_spec(o.cmds@);
                &&& o.repaint_requested == old(self).should_reset
                &&& (o.texture_error.is_some() <==> am.is_none())
                &&& (am.is_none() ==> o.texture_error == Some(
                    RenderError::General(GeneralReason::TextureAllocation),
                ))
                &&& run_cmds_spec(*pipeline, o.cmds@) == *pipeline
                &&& (old(self).render_view.is_none() ==> o.cmds@.len() == 0)
                &&& (old(self).render_view.is_some() ==> {
                    &&& ds.len() == kept.len()
                    &&& ups.len() == kept.len()
                    &&& (forall|i: int|
                        0 <= i < kept.len() ==> mesh_converted(
                            screen,
                            prim_mesh(#[trigger] kept[i]),
                            kept[i].clip,
                            ups[i],
                        ))
                    &&& (forall|i: int|
                        0 <= i < kept.len() ==> {
                            let tid = prim_mesh(#[trigger] kept[i]).texture_id;
                            &&& draw_config_ok(
                                ds[i],
                                *old(self),
                                old(self).render_view.unwrap(),
                                screen,
                            )
                            &&& ds[i].scissor == Some(scissor_spec(kept[i].clip, screen))
                            &&& ds[i].count == ups[i].indices@.len() as u64
                            &&& ds[i].vertex_buffer == VertexBufferSlot::MeshBuffer {
                                count: ups[i].vertices@.len() as u64,
                            }
                            &&& ds[i].index_buffer == IndexBufferSlot::MeshBuffer {
                                count: ups[i].indices@.len() as u64,
                            }
                            &&& (final(self).tex_alloc@.contains_key(tid) ==> ds[i].texture
                                == ResourceSlot::OverlayTexture { id: tid })
                            &&& (!final(self).tex_alloc@.contains_key(tid) ==> ds[i].texture == (
                            if i == 0 {
                                pipeline.ps_resource
                            } else {
                                ds[i - 1].texture
                            }))
                        })
                })
            }),
    {
        let ghost pstart = *pipeline;
        self.backup.save(pipeline);
        let repaint = self.should_reset;
        self.should_reset = false;
        let FrameOutput { textures_delta, primitives } = frame;
        let ghost orig_deltas = textures_delta@;
        let ghost orig_prims = primitives@;

        // Step one: apply the toolkit's texture deltas; a failed allocation
        // is recoverable — the frame goes on with stale textures.
        let texture_error: Option<RenderError> = if textures_delta.len() > 0 {
            match self.tex_alloc.process_deltas(textures_delta) {
                Ok(()) => None,
                Err(e) => Some(e),
            }
        } else {
            proof {
                assert(deltas_view(orig_deltas) =~= Seq::<crate::texture::DeltaModel>::empty());
            }
            None
        };
        let ghost texmap = self.tex_alloc@;

        // Step two: convert the primitives to clip-space meshes in paint
        // order, dropping degenerate ones; a paint callback is fatal.
        let mut rest = primitives;
        let mut meshes: Vec<GpuMesh> = Vec::new();
        let ghost mut kp = Seq::<ClippedPrimitive>::empty();
        let ghost mut i: int = 0;
        proof {
            assert(orig_prims.skip(0) =~= orig_prims);
            assert(Seq::<ClippedPrimitive>::empty() + kept_prims(orig_prims) =~= kept_prims(
                orig_prims,
            ));
        }
        while rest.len() > 0
            invariant
                0 <= i <= orig_prims.len(),
                rest@ == orig_prims.skip(i),
                kept_prims(orig_prims) == kp + kept_prims(orig_prims.skip(i)),
                !has_callback(orig_prims.take(i)),
                meshes@.len() == kp.len(),
                forall|j: int|
                    0 <= j < kp.len() ==> is_kept(#[trigger] kp[j]) && mesh_converted(
                        screen,
                        prim_mesh(kp[j]),
                        kp[j].clip,
                        meshes@[j],
                    ),
                self.tex_alloc@ == texmap,
                self.tex_alloc.wf(),
                self.backup.saved() == Some(pstart),
                self.render_view == old(self).render_view,
                self.input_manager == old(self).input_manager,
                !self.should_reset,
                same_device_objects(*old(self), *self),
            decreases rest@.len(),
        {
            let p = rest.remove(0);
            proof {
                assert(p == orig_prims[i]);
                assert(rest@ =~= orig_prims.skip(i + 1));
                assert(orig_prims.skip(i).drop_first() =~= orig_prims.skip(i + 1));
            }
            let ghost kept_here = is_kept(orig_prims[i]);
            match p.primitive {
                Primitive::Mesh(m) => {
                    let ghost mm = m;
                    match GpuMesh::from_mesh(screen, m, p.clip) {
                        Some(gm) => {
                            meshes.push(gm);
                            proof {
                                assert(prim_mesh(orig_prims[i]) == mm);
                                assert(kept_here);
                                kp = kp + seq![orig_prims[i]];
                            }
                        },
                        None => {
                            proof {
                                assert(!kept_here);
                                kp = kp + Seq::<ClippedPrimitive>::empty();
                                assert(kp + Seq::<ClippedPrimitive>::empty() =~= kp);
                            }
                        },
                    }
                },
                Primitive::PaintCallback => {
                    let mut scratch = *pipeline;
                    let restore_outcome = self.backup.restore(&mut scratch);
                    proof {
                        assert(restore_outcome.is_ok());
                        assert(orig_prims[i].primitive matches Primitive::PaintCallback);
                        assert(has_callback(orig_prims));
                    }
                    return Err(RenderError::General(GeneralReason::UnsupportedPrimitive));
                },
            }
            proof {
                assert(kept_prims(orig_prims.skip(i)) == (if is_kept(orig_prims[i]) {
                    seq![orig_prims[i]]
                } else {
                    Seq::<ClippedPrimitive>::empty()
                }) + kept_prims(orig_prims.skip(i + 1)));
                assert(kept_prims(orig_prims) =~= kp + kept_prims(orig_prims.skip(i + 1)));
                assert(orig_prims.take(i + 1) =~= orig_prims.take(i).push(orig_prims[i]));
                assert forall|j: int|
                    0 <= j < orig_prims.take(i + 1).len() implies !((
                #[trigger] orig_prims.take(i + 1)[j]).primitive
                    matches Primitive::PaintCallback) by {
                    if j < i {
                        assert(orig_prims.take(i)[j] == orig_prims.take(i + 1)[j]);
                        assert(!has_callback(orig_prims.take(i)));
                    }
                }
                i = i + 1;
            }
        }
        proof {
            assert(orig_prims.skip(i) =~= Seq::<ClippedPrimitive>::empty());
            assert(kept_prims(Seq::<ClippedPrimitive>::empty())
                == Seq::<ClippedPrimitive>::empty());
            assert(kept_prims(orig_prims) =~= kp);
            assert(orig_prims.take(i) =~= orig_prims);
            assert(!has_callback(orig_prims));
        }

        // Step three: the command plan.  With no render-target view
        // (mid-resize) nothing at all is issued.
        let view_opt = self.render_view;
        match view_opt {
            None => {
                let mut scratch = *pipeline;
                let restore_outcome = self.backup.restore(&mut scratch);
                proof {
                    assert(restore_outcome.is_ok());
                    assert(run_cmds_spec(pstart, Seq::<GpuCmd>::empty()) == pstart);
                }
                Ok(
                    FrameOutcome {
                        cmds: Vec::new(),
                        texture_error,
                        repaint_requested: repaint,
                    },
                )
            },
            Some(view) => {
                let mut cmds: Vec<GpuCmd> = Vec::new();
                push_cmd(
                    &mut cmds,
                    GpuCmd::SetBlend {
                        binding: BlendBinding {
                            state: self.blend_state,
                            factor_r_bits: 0,
                            factor_g_bits: 0,
                            factor_b_bits: 0,
                            factor_a_bits: 0,
                            sample_mask: 0xffff_ffff,
                        },
                    },
                );
                push_cmd(&mut cmds, GpuCmd::SetRaster { state: self.raster_state });
                push_cmd(&mut cmds, GpuCmd::SetSampler { state: self.sampler_state });
                push_cmd(&mut cmds, GpuCmd::SetViewport { viewport: viewport_for(screen) });
                push_cmd(&mut cmds, GpuCmd::SetRenderTarget { view: Some(view) });
                push_cmd(&mut cmds, GpuCmd::SetTopology { topology: Topology::TriangleList });
                push_cmd(&mut cmds, GpuCmd::SetInputLayout { layout: self.input_layout });
                push_cmd(
                    &mut cmds,
                    GpuCmd::SetShaders {
                        vertex: self.vertex_shader,
                        pixel: self.pixel_shader,
                    },
                );
                let ghost mut cur = run_cmds_spec(pstart, cmds@);
                proof {
                    assert(cur.render_target == Some(view));
                    assert(cur.ps_resource == pstart.ps_resource);
                    assert(configured_ok(cur, *old(self), view, screen));
                    assert(draws_spec(pstart, cmds@) =~= Seq::<DrawRecord>::empty());
                    assert(uploaded_spec(cmds@) =~= Seq::<GpuMesh>::empty());
                    assert(meshes@.skip(0) =~= meshes@);
                    assert(meshes@.take(0) =~= Seq::<GpuMesh>::empty());
                }

                // Step four: one block per mesh, in paint order — scissor,
                // texture binding when the id is present, a fresh buffer
                // upload sized exactly to the mesh, and the indexed draw.
                let ghost ms0 = meshes@;
                let mut mrest = meshes;
                let ghost mut j: int = 0;
                while mrest.len() > 0
                    invariant
                        0 <= j <= ms0.len(),
                        mrest@ == ms0.skip(j),
                        run_cmds_spec(pstart, cmds@) == cur,
                        configured_ok(cur, *old(self), view, screen),
                        uploaded_spec(cmds@) == ms0.take(j),
                        draws_spec(pstart, cmds@).len() == j,
                        cur.ps_resource == (if j == 0 {
                            pstart.ps_resource
                        } else {
                            draws_spec(pstart, cmds@)[j - 1].texture
                        }),
                        forall|t: int|
                            0 <= t < j ==> {
                                let ds = draws_spec(pstart, cmds@);
                                let tid = prim_mesh(#[trigger] kp[t]).texture_id;
                                &&& draw_config_ok(ds[t], *old(self), view, screen)
                                &&& ds[t].scissor == Some(scissor_spec(kp[t].clip, screen))
                                &&& ds[t].count == ms0[t].indices@.len() as u64
                                &&& ds[t].vertex_buffer == VertexBufferSlot::MeshBuffer {
                                    count: ms0[t].vertices@.len() as u64,
                                }
                                &&& ds[t].index_buffer == IndexBufferSlot::MeshBuffer {
                                    count: ms0[t].indices@.len() as u64,
                                }
                                &&& (texmap.contains_key(tid) ==> ds[t].texture
                                    == ResourceSlot::OverlayTexture { id: tid })
                                &&& (!texmap.contains_key(tid) ==> ds[t].texture == (if t == 0 {
                                    pstart.ps_resource
                                } else {
                                    ds[t - 1].texture
                                }))
                            },
                        self.tex_alloc@ == texmap,
                        self.tex_alloc.wf(),
                        self.backup.saved() == Some(pstart),
                        self.render_view == old(self).render_view,
                        self.input_manager == old(self).input_manager,
                        !self.should_reset,
                        same_device_objects(*old(self), *self),
                    decreases mrest@.len(),
                {
                    let gm = mrest.remove(0);
                    proof {
                        assert(gm == ms0[j]);
                        assert(mrest@ =~= ms0.skip(j + 1));
                        assert(mesh_converted(screen, prim_mesh(kp[j]), kp[j].clip, ms0[j]));
                    }
                    let ghost ds_before = draws_spec(pstart, cmds@);
                    let tex_present = match self.tex_alloc.get_by_id(gm.texture_id) {
                        Some(_) => true,
                        None => false,
                    };
                    push_cmd(&mut cmds, GpuCmd::SetScissor { rect: gm.clip });
                    proof {
                        cur = run_cmd_spec(cur, GpuCmd::SetScissor { rect: gm.clip });
                    }
                    if tex_present {
                        push_cmd(&mut cmds, GpuCmd::BindTexture { id: gm.texture_id });
                        proof {
                            cur = run_cmd_spec(cur, GpuCmd::BindTexture { id: gm.texture_id });
                        }
                    }
                    let count: u64 = gm.indices.len() as u64;
                    let ghost gmg = gm;
                    push_cmd(&mut cmds, GpuCmd::SetMeshBuffers { mesh: gm });
                    proof {
                        cur = run_cmd_spec(cur, GpuCmd::SetMeshBuffers { mesh: gmg });
                    }
                    push_cmd(&mut cmds, GpuCmd::DrawIndexed { count });
                    proof {
                        assert(draws_spec(pstart, cmds@) =~= ds_before.push(record_at(cur, count)));
                        assert(uploaded_spec(cmds@) =~= ms0.take(j).push(ms0[j]));
                        assert(ms0.take(j + 1) =~= ms0.take(j).push(ms0[j]));
                        j = j + 1;
                    }
                }
                proof {
                    assert(ms0.take(j) =~= ms0);
                }

                // Step five: put every saved slot back; the host sees its
                // own pipeline state unchanged.
                let mut snap = *pipeline;
                let restore_outcome = self.backup.restore(&mut snap);
                proof {
                    assert(restore_outcome.is_ok());
                    assert(snap == pstart);
                }
                push_cmd(&mut cmds, GpuCmd::RestoreState { snapshot: snap });
                proof {
                    assert(run_cmds_spec(pstart, cmds@) == pstart);
                }
                Ok(FrameOutcome { cmds, texture_error, repaint_requested: repaint })
            },
        }
    }

    /// Releases the render-target view ahead of the host's own buffer
    /// resize, returning the released handle for the host to drop.  Until
    /// [`EguiDx11::finish_resize`] installs the new view, the instance has
    /// no render target and a presented frame issues no command at all.
    pub fn begin_resize(&mut self) -> (r: Option<u64>)
        ensures
            r == old(self).render_view,
            final(self).render_view.is_none(),
            final(self).tex_alloc == old(self).tex_alloc,
            final(self).input_manager == old(self).input_manager,
            final(self).backup == old(self).backup,
            final(self).should_reset == old(self).should_reset,
            same_device_objects(*old(self), *final(self)),
    {
        let r = self.render_view;
        self.render_view = None;
        r
    }

    /// Installs the render-target view built from the resized backbuffer.
    /// Only the view slot changes: the texture mapping, input queue, backup
    /// slot and repaint flag are untouched, as in [`EguiDx11::begin_resize`].
    pub fn finish_resize(&mut self, new_view: u64)
        ensures
            final(self).render_view == Some(new_view),
            final(self).should_reset == old(self).should_reset,
            final(self).tex_alloc == old(self).tex_alloc,
            final(self).input_manager == old(self).input_manager,
            final(self).backup == old(self).backup,
            same_device_objects(*old(self), *final(self)),
    {
        self.render_view = Some(new_view);
    }
}

} // verus!
