use egui_directx11::backup::BackupState;
use egui_directx11::backup::IndexBufferBinding;
use egui_directx11::backup::IndexBufferSlot;
use egui_directx11::backup::PipelineState;
use egui_directx11::backup::ResourceSlot;
use egui_directx11::backup::Topology;
use egui_directx11::backup::VertexBufferBinding;
use egui_directx11::backup::VertexBufferSlot;
use egui_directx11::backup::Viewport;
use egui_directx11::backup::ONE_F32_BITS;
use egui_directx11::mesh::clamp_to;
use egui_directx11::mesh::clip_x;
use egui_directx11::mesh::clip_y;
use egui_directx11::mesh::scissor_for;
use egui_directx11::mesh::ClipRectUi;
use egui_directx11::mesh::GpuMesh;
use egui_directx11::mesh::ScreenSize;
use egui_directx11::mesh::UiMesh;
use egui_directx11::mesh::UiVertex;
use egui_directx11::app::viewport_for;
use egui_directx11::pipeline::blend_desc;
use egui_directx11::pipeline::input_layout_desc;
use egui_directx11::pipeline::raster_desc;
use egui_directx11::pipeline::sampler_desc;
use egui_directx11::pipeline::AddressMode;
use egui_directx11::pipeline::BlendFactor;
use egui_directx11::pipeline::BlendOp;
use egui_directx11::pipeline::ComparisonFunc;
use egui_directx11::pipeline::CullMode;
use egui_directx11::pipeline::FillMode;
use egui_directx11::pipeline::Filter;
use egui_directx11::pipeline::Semantic;
use egui_directx11::pipeline::VertexFormat;
use egui_directx11::texture::ImagePatch;
use egui_directx11::texture::PatchPos;
use egui_directx11::texture::TextureAllocator;
use egui_directx11::texture::TextureDelta;
use egui_directx11::texture::TextureOp;
use egui_directx11::GeneralReason;
use egui_directx11::RenderError;

fn host_pipeline() -> PipelineState {
    PipelineState {
        render_target: Some(11),
        depth_stencil: Some(12),
        viewport: Some(Viewport {
            x: 0,
            y: 0,
            width: 640,
            height: 480,
            min_depth_bits: 0,
            max_depth_bits: ONE_F32_BITS,
        }),
        blend: None,
        raster_state: Some(13),
        sampler: Some(14),
        input_layout: Some(15),
        vertex_shader: Some(16),
        pixel_shader: Some(17),
        ps_resource: ResourceSlot::Resource(18),
        topology: Topology::TriangleStrip,
        vertex_buffer: VertexBufferSlot::Buffer(VertexBufferBinding {
            buffer: 19,
            stride: 32,
            offset: 0,
        }),
        index_buffer: IndexBufferSlot::Buffer(IndexBufferBinding {
            buffer: 20,
            format: 42,
            offset: 0,
        }),
        scissor: None,
    }
}

#[test]
fn clip_transform_maps_corners_exactly() {
    // (0, 0) -> (-1, 1) and (w, h) -> (1, -1), for a typical screen.
    let w: i64 = 800;
    let h: i64 = 600;
    let tl_x = clip_x(0, w);
    let tl_y = clip_y(0, h);
    let br_x = clip_x(w, w);
    let br_y = clip_y(h, h);
    assert_eq!(tl_x.num, -w);
    assert_eq!(tl_x.den, w);
    assert_eq!(tl_y.num, h);
    assert_eq!(tl_y.den, h);
    assert_eq!(br_x.num, w);
    assert_eq!(br_x.den, w);
    assert_eq!(br_y.num, -h);
    assert_eq!(br_y.den, h);
}

#[test]
fn clip_transform_midpoint_is_origin() {
    let c = clip_x(400, 800);
    assert_eq!(c.num, 0);
    assert_eq!(c.den, 800);
    let c = clip_y(300, 600);
    assert_eq!(c.num, 0);
    assert_eq!(c.den, 600);
}

#[test]
fn clamp_bounds() {
    assert_eq!(clamp_to(-5, 100), 0);
    assert_eq!(clamp_to(0, 100), 0);
    assert_eq!(clamp_to(55, 100), 55);
    assert_eq!(clamp_to(100, 100), 100);
    assert_eq!(clamp_to(101, 100), 100);
}

#[test]
fn scissor_clamped_to_screen() {
    let screen = ScreenSize { width: 800, height: 600 };
    let clip = ClipRectUi { left: -10, top: -5, right: 900, bottom: 700 };
    let s = scissor_for(clip, screen);
    assert_eq!((s.left, s.top, s.right, s.bottom), (0, 0, 800, 600));
}

#[test]
fn degenerate_mesh_is_dropped() {
    let screen = ScreenSize { width: 800, height: 600 };
    let clip = ClipRectUi { left: 0, top: 0, right: 800, bottom: 600 };
    let no_indices = UiMesh {
        vertices: vec![UiVertex { x: 0, y: 0, u_bits: 0, v_bits: 0, color: 0xFFFF_FFFF }],
        indices: vec![],
        texture_id: 1,
    };
    assert!(GpuMesh::from_mesh(screen, no_indices, clip).is_none());
    let no_vertices = UiMesh { vertices: vec![], indices: vec![0, 1, 2], texture_id: 1 };
    assert!(GpuMesh::from_mesh(screen, no_vertices, clip).is_none());
}

#[test]
fn full_screen_quad_converts_to_clip_corners() {
    let screen = ScreenSize { width: 800, height: 600 };
    let clip = ClipRectUi { left: 0, top: 0, right: 800, bottom: 600 };
    let mesh = UiMesh {
        vertices: vec![
            UiVertex { x: 0, y: 0, u_bits: 1, v_bits: 2, color: 0xAABB_CCDD },
            UiVertex { x: 800, y: 0, u_bits: 3, v_bits: 4, color: 0xAABB_CCDD },
            UiVertex { x: 0, y: 600, u_bits: 5, v_bits: 6, color: 0xAABB_CCDD },
            UiVertex { x: 800, y: 600, u_bits: 7, v_bits: 8, color: 0xAABB_CCDD },
        ],
        indices: vec![0, 1, 2, 1, 2, 3],
        texture_id: 0,
    };
    let gm = GpuMesh::from_mesh(screen, mesh, clip).unwrap();
    assert_eq!(gm.vertices.len(), 4);
    assert_eq!(gm.indices, vec![0, 1, 2, 1, 2, 3]);
    assert_eq!((gm.clip.left, gm.clip.top, gm.clip.right, gm.clip.bottom), (0, 0, 800, 600));
    // (-1, 1), (1, 1), (-1, -1), (1, -1) as exact rationals
    let signs: Vec<(i64, i64)> = gm
        .vertices
        .iter()
        .map(|v| (v.x.num / v.x.den, v.y.num / v.y.den))
        .collect();
    assert_eq!(signs, vec![(-1, 1), (1, 1), (-1, -1), (1, -1)]);
    // uv and color pass through unchanged
    assert_eq!(gm.vertices[0].u_bits, 1);
    assert_eq!(gm.vertices[3].v_bits, 8);
    assert_eq!(gm.vertices[2].color, 0xAABB_CCDD);
}

fn patch(width: u32, height: u32, value: u32) -> ImagePatch {
    let rows = (0..height).map(|_| vec![value; width as usize]).collect();
    ImagePatch { width, height, rows }
}

#[test]
fn update_to_absent_id_creates_then_writes() {
    // An update to an id that was never created allocates a texture sized
    // to cover the update, zero outside the patch, before writing.
    let mut alloc = TextureAllocator::new();
    let r = alloc.apply_update(7, Some(PatchPos { x: 1, y: 1 }), patch(2, 2, 0xFFFF_FFFF));
    assert!(r.is_ok());
    let t = alloc.get_by_id(7).unwrap();
    assert_eq!((t.width, t.height), (3, 3));
    assert_eq!(t.rows[0][0], 0);
    assert_eq!(t.rows[0][2], 0);
    assert_eq!(t.rows[1][0], 0);
    assert_eq!(t.rows[1][1], 0xFFFF_FFFF);
    assert_eq!(t.rows[2][2], 0xFFFF_FFFF);
}

#[test]
fn partial_update_in_bounds_keeps_dimensions() {
    let mut alloc = TextureAllocator::new();
    alloc.apply_update(1, None, patch(4, 4, 5)).unwrap();
    alloc
        .apply_update(1, Some(PatchPos { x: 2, y: 2 }), patch(2, 2, 9))
        .unwrap();
    let t = alloc.get_by_id(1).unwrap();
    assert_eq!((t.width, t.height), (4, 4));
    assert_eq!(t.rows[0][0], 5);
    assert_eq!(t.rows[2][2], 9);
    assert_eq!(t.rows[3][3], 9);
    assert_eq!(t.rows[1][3], 5);
}

#[test]
fn oversize_update_fails_and_leaves_mapping_untouched() {
    let mut alloc = TextureAllocator::new();
    alloc.apply_update(1, None, patch(2, 2, 5)).unwrap();
    let r = alloc.apply_update(2, Some(PatchPos { x: 16384, y: 0 }), patch(1, 1, 9));
    assert_eq!(
        r,
        Err(RenderError::General(GeneralReason::TextureAllocation))
    );
    assert!(alloc.get_by_id(2).is_none());
    let t = alloc.get_by_id(1).unwrap();
    assert_eq!((t.width, t.height), (2, 2));
    assert_eq!(t.rows[0][0], 5);
}

#[test]
fn delta_run_stops_at_failure_keeping_earlier_deltas() {
    let mut alloc = TextureAllocator::new();
    let deltas = vec![
        TextureDelta { id: 1, op: TextureOp::Update { pos: None, image: patch(2, 2, 5) } },
        TextureDelta {
            id: 2,
            op: TextureOp::Update { pos: Some(PatchPos { x: 16384, y: 0 }), image: patch(1, 1, 9) },
        },
        TextureDelta { id: 3, op: TextureOp::Update { pos: None, image: patch(1, 1, 7) } },
    ];
    let r = alloc.process_deltas(deltas);
    assert_eq!(
        r,
        Err(RenderError::General(GeneralReason::TextureAllocation))
    );
    assert!(alloc.get_by_id(1).is_some());
    assert!(alloc.get_by_id(2).is_none());
    assert!(alloc.get_by_id(3).is_none());
}

#[test]
fn freed_id_is_absent() {
    let mut alloc = TextureAllocator::new();
    alloc.apply_update(7, None, patch(2, 2, 0xFFFF_FFFF)).unwrap();
    assert!(alloc.get_by_id(7).is_some());
    alloc.free(7);
    assert!(alloc.get_by_id(7).is_none());
    // freeing an absent id is a no-op
    alloc.free(7);
    assert!(alloc.get_by_id(7).is_none());
}

#[test]
fn save_restore_leaves_state_bit_identical() {
    let s = host_pipeline();
    let mut b = BackupState::new();
    b.save(&s);
    let mut s2 = s;
    let r = b.restore(&mut s2);
    assert_eq!(r, Ok(()));
    assert_eq!(s2, s);
    assert!(b.saved.is_none());
}

#[test]
fn fixed_pipeline_descriptors() {
    let b = blend_desc();
    assert!(b.target.blend_enable);
    assert!(!b.alpha_to_coverage && !b.independent_blend);
    assert_eq!(b.target.src_blend, BlendFactor::SrcAlpha);
    assert_eq!(b.target.dest_blend, BlendFactor::InvSrcAlpha);
    assert_eq!(b.target.blend_op, BlendOp::Add);
    assert_eq!(b.target.src_blend_alpha, BlendFactor::One);
    assert_eq!(b.target.dest_blend_alpha, BlendFactor::InvSrcAlpha);
    assert!(b.target.write_mask_all);

    let r = raster_desc();
    assert_eq!(r.fill_mode, FillMode::Solid);
    assert_eq!(r.cull_mode, CullMode::NoCulling);
    assert!(r.scissor_enable);
    assert!(!r.depth_clip_enable && !r.multisample_enable);

    let s = sampler_desc();
    assert_eq!(s.filter, Filter::MinMagMipLinear);
    assert_eq!(s.address_u, AddressMode::Border);
    assert_eq!(s.comparison, ComparisonFunc::Always);
    // the border color is opaque white: every channel is 1.0f32
    assert_eq!(f32::from_bits(s.border_r_bits), 1.0);
    assert_eq!(f32::from_bits(s.border_a_bits), 1.0);

    let layout = input_layout_desc();
    assert_eq!(layout.len(), 3);
    assert_eq!(layout[0].semantic, Semantic::Position);
    assert_eq!(layout[0].aligned_byte_offset, 0);
    assert_eq!(layout[1].semantic, Semantic::TexCoord);
    assert_eq!(layout[1].aligned_byte_offset, 8);
    assert_eq!(layout[2].semantic, Semantic::Color);
    assert_eq!(layout[2].format, VertexFormat::Float32x4);
    assert_eq!(layout[2].aligned_byte_offset, 16);
}

#[test]
fn viewport_covers_client_area_with_unit_depth() {
    let v = viewport_for(ScreenSize { width: 800, height: 600 });
    assert_eq!((v.x, v.y, v.width, v.height), (0, 0, 800, 600));
    assert_eq!(f32::from_bits(v.min_depth_bits), 0.0);
    assert_eq!(f32::from_bits(v.max_depth_bits), 1.0);
}

#[test]
fn restore_without_save_is_an_error() {
    let mut b = BackupState::new();
    let mut s = host_pipeline();
    let r = b.restore(&mut s);
    assert_eq!(r, Err(RenderError::General(GeneralReason::MissingBackup)));
    assert_eq!(s, host_pipeline());
}
