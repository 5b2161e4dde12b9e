use egui_directx11::app::ClippedPrimitive;
use egui_directx11::app::EguiDx11;
use egui_directx11::app::FrameOutput;
use egui_directx11::app::GpuCmd;
use egui_directx11::app::Primitive;
use egui_directx11::backup::IndexBufferBinding;
use egui_directx11::backup::IndexBufferSlot;
use egui_directx11::backup::PipelineState;
use egui_directx11::backup::ResourceSlot;
use egui_directx11::backup::Topology;
use egui_directx11::backup::VertexBufferBinding;
use egui_directx11::backup::VertexBufferSlot;
use egui_directx11::input_manager::InputEvent;
use egui_directx11::input_manager::InputManager;
use egui_directx11::input_manager::InputResult;
use egui_directx11::input_manager::MouseButton;
use egui_directx11::input_manager::WM_CHAR;
use egui_directx11::input_manager::WM_KEYDOWN;
use egui_directx11::input_manager::WM_KEYUP;
use egui_directx11::input_manager::WM_LBUTTONDOWN;
use egui_directx11::input_manager::WM_MOUSEMOVE;
use egui_directx11::input_manager::WM_MOUSEWHEEL;
use egui_directx11::input_manager::VK_SHIFT;
use egui_directx11::mesh::ClipRectUi;
use egui_directx11::mesh::ScreenSize;
use egui_directx11::mesh::UiMesh;
use egui_directx11::mesh::UiVertex;
use egui_directx11::texture::ImagePatch;
use egui_directx11::texture::TextureDelta;
use egui_directx11::texture::TextureOp;
use egui_directx11::GeneralReason;
use egui_directx11::RenderError;

fn overlay() -> EguiDx11 {
    EguiDx11::new(100, 1, 2, 3, 4, 5, 6, 7)
}

fn host_state() -> PipelineState {
    PipelineState {
        render_target: Some(21),
        depth_stencil: None,
        viewport: None,
        blend: None,
        raster_state: Some(22),
        sampler: Some(23),
        input_layout: Some(24),
        vertex_shader: Some(25),
        pixel_shader: Some(26),
        ps_resource: ResourceSlot::Resource(27),
        topology: Topology::TriangleStrip,
        vertex_buffer: VertexBufferSlot::Buffer(VertexBufferBinding {
            buffer: 28,
            stride: 16,
            offset: 0,
        }),
        index_buffer: IndexBufferSlot::Buffer(IndexBufferBinding {
            buffer: 29,
            format: 42,
            offset: 4,
        }),
        scissor: None,
    }
}

fn screen() -> ScreenSize {
    ScreenSize { width: 800, height: 600 }
}

fn full_screen_quad(texture_id: u64) -> ClippedPrimitive {
    ClippedPrimitive {
        clip: ClipRectUi { left: 0, top: 0, right: 800, bottom: 600 },
        primitive: Primitive::Mesh(UiMesh {
            vertices: vec![
                UiVertex { x: 0, y: 0, u_bits: 0, v_bits: 0, color: 0xFFFF_FFFF },
                UiVertex { x: 800, y: 0, u_bits: 0, v_bits: 0, color: 0xFFFF_FFFF },
                UiVertex { x: 0, y: 600, u_bits: 0, v_bits: 0, color: 0xFFFF_FFFF },
                UiVertex { x: 800, y: 600, u_bits: 0, v_bits: 0, color: 0xFFFF_FFFF },
            ],
            indices: vec![0, 1, 2, 1, 2, 3],
            texture_id,
        }),
    }
}

fn white_patch() -> ImagePatch {
    ImagePatch { width: 2, height: 2, rows: vec![vec![0xFFFF_FFFF; 2], vec![0xFFFF_FFFF; 2]] }
}

#[test]
fn one_full_screen_rectangle_one_mesh() {
    // One solid rectangle covering the client area: exactly one mesh with 4
    // vertices and 6 indices, scissor equal to the full screen, vertex
    // positions exactly the four clip-space corners.
    let mut overlay = overlay();
    let host = host_state();
    let frame = FrameOutput { textures_delta: vec![], primitives: vec![full_screen_quad(0)] };
    let outcome = overlay.present_frame(&host, screen(), frame).unwrap();
    assert!(outcome.texture_error.is_none());
    let uploads: Vec<_> = outcome
        .cmds
        .iter()
        .filter_map(|c| match c {
            GpuCmd::SetMeshBuffers { mesh } => Some(mesh),
            _ => None,
        })
        .collect();
    assert_eq!(uploads.len(), 1);
    let mesh = uploads[0];
    assert_eq!(mesh.vertices.len(), 4);
    assert_eq!(mesh.indices.len(), 6);
    assert_eq!(
        (mesh.clip.left, mesh.clip.top, mesh.clip.right, mesh.clip.bottom),
        (0, 0, 800, 600)
    );
    let mut corners: Vec<(i64, i64)> = mesh
        .vertices
        .iter()
        .map(|v| (v.x.num / v.x.den, v.y.num / v.y.den))
        .collect();
    corners.sort();
    assert_eq!(corners, vec![(-1, -1), (-1, 1), (1, -1), (1, 1)]);
    let draws: Vec<u64> = outcome
        .cmds
        .iter()
        .filter_map(|c| match c {
            GpuCmd::DrawIndexed { count } => Some(*count),
            _ => None,
        })
        .collect();
    assert_eq!(draws, vec![6]);
    // the plan ends by restoring the host's exact state
    match outcome.cmds.last().unwrap() {
        GpuCmd::RestoreState { snapshot } => assert_eq!(*snapshot, host),
        other => panic!("expected a restore, got {:?}", other),
    }
}

#[test]
fn create_then_free_then_draw_binds_no_texture() {
    // Create texture id 7 with a 2x2 white bitmap, free id 7, then draw a
    // mesh referencing id 7: the draw is issued without a texture binding
    // and without error.
    let mut overlay = overlay();
    let host = host_state();
    let frame = FrameOutput {
        textures_delta: vec![
            TextureDelta { id: 7, op: TextureOp::Update { pos: None, image: white_patch() } },
            TextureDelta { id: 7, op: TextureOp::Free },
        ],
        primitives: vec![full_screen_quad(7)],
    };
    let outcome = overlay.present_frame(&host, screen(), frame).unwrap();
    assert!(outcome.texture_error.is_none());
    let binds = outcome
        .cmds
        .iter()
        .filter(|c| matches!(c, GpuCmd::BindTexture { .. }))
        .count();
    assert_eq!(binds, 0);
    let draws = outcome
        .cmds
        .iter()
        .filter(|c| matches!(c, GpuCmd::DrawIndexed { .. }))
        .count();
    assert_eq!(draws, 1);
}

#[test]
fn present_binds_texture_when_present() {
    let mut overlay = overlay();
    let host = host_state();
    let frame = FrameOutput {
        textures_delta: vec![TextureDelta {
            id: 7,
            op: TextureOp::Update { pos: None, image: white_patch() },
        }],
        primitives: vec![full_screen_quad(7)],
    };
    let outcome = overlay.present_frame(&host, screen(), frame).unwrap();
    let binds: Vec<u64> = outcome
        .cmds
        .iter()
        .filter_map(|c| match c {
            GpuCmd::BindTexture { id } => Some(*id),
            _ => None,
        })
        .collect();
    assert_eq!(binds, vec![7]);
}

#[test]
fn paint_callback_is_fatal() {
    let mut overlay = overlay();
    let host = host_state();
    let frame = FrameOutput {
        textures_delta: vec![],
        primitives: vec![ClippedPrimitive {
            clip: ClipRectUi { left: 0, top: 0, right: 10, bottom: 10 },
            primitive: Primitive::PaintCallback,
        }],
    };
    let r = overlay.present_frame(&host, screen(), frame);
    assert!(matches!(
        r,
        Err(RenderError::General(GeneralReason::UnsupportedPrimitive))
    ));
}

#[test]
fn degenerate_meshes_produce_no_draw() {
    let mut overlay = overlay();
    let host = host_state();
    let empty_mesh = ClippedPrimitive {
        clip: ClipRectUi { left: 0, top: 0, right: 10, bottom: 10 },
        primitive: Primitive::Mesh(UiMesh { vertices: vec![], indices: vec![], texture_id: 0 }),
    };
    let frame = FrameOutput { textures_delta: vec![], primitives: vec![empty_mesh] };
    let outcome = overlay.present_frame(&host, screen(), frame).unwrap();
    let draws = outcome
        .cmds
        .iter()
        .filter(|c| matches!(c, GpuCmd::DrawIndexed { .. }))
        .count();
    assert_eq!(draws, 0);
}

#[test]
fn no_commands_issued_while_resizing() {
    // Between the release of the render-target view and the new buffer
    // being acquired, a presented frame issues nothing at all.
    let mut overlay = overlay();
    let host = host_state();
    let released = overlay.begin_resize();
    assert_eq!(released, Some(1));
    let frame = FrameOutput { textures_delta: vec![], primitives: vec![full_screen_quad(0)] };
    let outcome = overlay.present_frame(&host, screen(), frame).unwrap();
    assert!(outcome.cmds.is_empty());
    // after the new view is installed, drawing resumes; the repaint flag
    // is untouched by the resize pair
    overlay.finish_resize(33);
    let frame = FrameOutput { textures_delta: vec![], primitives: vec![full_screen_quad(0)] };
    let outcome = overlay.present_frame(&host, screen(), frame).unwrap();
    assert!(!outcome.repaint_requested);
    assert!(!outcome.cmds.is_empty());
    match &outcome.cmds[4] {
        GpuCmd::SetRenderTarget { view } => assert_eq!(*view, Some(33)),
        other => panic!("expected the render target, got {:?}", other),
    }
}

#[test]
fn texture_failure_is_recoverable_and_frame_proceeds() {
    let mut overlay = overlay();
    let host = host_state();
    let oversize = ImagePatch { width: 1, height: 1, rows: vec![vec![0]] };
    let frame = FrameOutput {
        textures_delta: vec![TextureDelta {
            id: 1,
            op: TextureOp::Update {
                pos: Some(egui_directx11::texture::PatchPos { x: 16384, y: 0 }),
                image: oversize,
            },
        }],
        primitives: vec![full_screen_quad(0)],
    };
    let outcome = overlay.present_frame(&host, screen(), frame).unwrap();
    assert_eq!(
        outcome.texture_error,
        Some(RenderError::General(GeneralReason::TextureAllocation))
    );
    // the frame still drew
    let draws = outcome
        .cmds
        .iter()
        .filter(|c| matches!(c, GpuCmd::DrawIndexed { .. }))
        .count();
    assert_eq!(draws, 1);
}

#[test]
fn mouse_move_is_queued_and_drained_once() {
    let mut im = InputManager::new();
    let lparam: u64 = (40u64 << 16) | 30u64;
    assert_eq!(im.process(WM_MOUSEMOVE, 0, lparam), InputResult::Consumed);
    assert_eq!(im.process(0x0084, 0, 0), InputResult::Ignored);
    let collected = im.collect_input();
    assert_eq!(collected.events, vec![InputEvent::MouseMove { x: 30, y: 40 }]);
    assert_eq!((collected.cursor_x, collected.cursor_y), (30, 40));
    // drained to empty: a second collection sees nothing
    let collected = im.collect_input();
    assert!(collected.events.is_empty());
}

#[test]
fn events_replay_in_arrival_order() {
    let mut im = InputManager::new();
    im.process(WM_LBUTTONDOWN, 0, (2u64 << 16) | 1u64);
    im.process(WM_CHAR, 97, 0);
    im.process(WM_MOUSEWHEEL, (0xFF88u64) << 16, 0);
    let collected = im.collect_input();
    assert_eq!(
        collected.events,
        vec![
            InputEvent::Button { button: MouseButton::Left, down: true, x: 1, y: 2 },
            InputEvent::Character { code: 97 },
            InputEvent::Wheel { delta: -120 },
        ]
    );
}

#[test]
fn modifier_state_is_coherent_across_frames() {
    let mut im = InputManager::new();
    im.process(WM_KEYDOWN, VK_SHIFT as u64, 0);
    let collected = im.collect_input();
    assert!(collected.shift_down);
    // still held on the next frame even though the queue was drained
    let collected = im.collect_input();
    assert!(collected.shift_down);
    im.process(WM_KEYUP, VK_SHIFT as u64, 0);
    let collected = im.collect_input();
    assert!(!collected.shift_down);
}

#[test]
fn wnd_proc_forwards_and_reports_consumption() {
    let mut overlay = overlay();
    assert_eq!(
        overlay.wnd_proc(WM_MOUSEMOVE, 0, (8u64 << 16) | 9u64),
        InputResult::Consumed
    );
    assert_eq!(overlay.wnd_proc(0x0084, 0, 0), InputResult::Ignored);
    let collected = overlay.begin_frame();
    assert_eq!(collected.events, vec![InputEvent::MouseMove { x: 9, y: 8 }]);
}
