//! Mesh builder: converts toolkit-produced geometry in UI pixel space into
//! GPU-ready clip-space meshes.
//!
//! A clip-space coordinate is kept as an exact rational `num / den` so the
//! pixel-to-NDC transform `x' = 2*x/width - 1`, `y' = 1 - 2*y/height` (with
//! the Y flip) is stated and proved exactly; the host converts the rational
//! to the device's floating-point form only at the very edge.  Texture
//! coordinates and vertex colors pass through unchanged and are carried as
//! opaque bit patterns.

use vstd::prelude::*;

verus! {

/// Coordinates are kept well inside `i64` so the transform `2*x - w`
/// cannot overflow.
pub const COORD_LIMIT: i64 = 0x2000_0000_0000_0000;

/// Client-area size in pixels.
#[derive(Clone, Copy, PartialEq, Eq, Structural, Debug)]
pub struct ScreenSize {
    pub width: u32,
    pub height: u32,
}

impl ScreenSize {
    /// Positive dimensions that fit the device's signed scissor bounds.
    pub open spec fn wf(self) -> bool {
        &&& 0 < self.width <= i32::MAX
        &&& 0 < self.height <= i32::MAX
    }
}

/// An exact clip-space coordinate: the rational `num / den`, `den > 0`.
#[derive(Clone, Copy, PartialEq, Eq, Structural, Debug)]
pub struct ClipCoord {
    pub num: i64,
    pub den: i64,
}

impl ClipCoord {
    /// The coordinate equals the integer `v` exactly.
    pub open spec fn equals_int(self, v: int) -> bool {
        self.den > 0 && self.num == v * self.den
    }
}

/// A vertex as the toolkit hands it over: position in UI pixel space,
/// texture coordinate and RGBA color as opaque bit patterns.
#[derive(Clone, Copy, PartialEq, Eq, Structural, Debug)]
pub struct UiVertex {
    pub x: i64,
    pub y: i64,
    pub u_bits: u32,
    pub v_bits: u32,
    pub color: u32,
}

impl UiVertex {
    /// The position is small enough for the exact transform.
    pub open spec fn wf(self) -> bool {
        &&& -COORD_LIMIT < self.x < COORD_LIMIT
        &&& -COORD_LIMIT < self.y < COORD_LIMIT
    }
}

/// A vertex ready for the GPU: clip-space position, texture coordinate and
/// color passed through unchanged.
#[derive(Clone, Copy, PartialEq, Eq, Structural, Debug)]
pub struct GpuVertex {
    pub x: ClipCoord,
    pub y: ClipCoord,
    pub u_bits: u32,
    pub v_bits: u32,
    pub color: u32,
}

/// A clip rectangle in UI pixel space, as reported by the toolkit
/// (possibly outside the screen).
#[derive(Clone, Copy, PartialEq, Eq, Structural, Debug)]
pub struct ClipRectUi {
    pub left: i64,
    pub top: i64,
    pub right: i64,
    pub bottom: i64,
}

/// Integer scissor bounds in pixel space, clamped to the screen.
#[derive(Clone, Copy, PartialEq, Eq, Structural, Debug)]
pub struct ScissorRect {
    pub left: i32,
    pub top: i32,
    pub right: i32,
    pub bottom: i32,
}

/// The horizontal clip-space transform: `2*x/w - 1` as the rational
/// `(2*x - w) / w`.
pub open spec fn clip_x_spec(x: i64, w: i64) -> ClipCoord {
    ClipCoord { num: (2 * x - w) as i64, den: w }
}

/// The vertical clip-space transform with the Y flip: `1 - 2*y/h` as the
/// rational `(h - 2*y) / h`.
pub open spec fn clip_y_spec(y: i64, h: i64) -> ClipCoord {
    ClipCoord { num: (h - 2 * y) as i64, den: h }
}

/// Maps a horizontal pixel coordinate into clip space.
pub fn clip_x(x: i64, w: i64) -> (r: ClipCoord)
    requires
        0 < w < COORD_LIMIT,
        -COORD_LIMIT < x < COORD_LIMIT,
    ensures
        r == clip_x_spec(x, w),
        r.num == 2 * x - w,
        r.den == w,
{
    ClipCoord { num: 2 * x - w, den: w }
}

/// Maps a vertical pixel coordinate into clip space, flipping Y.
pub fn clip_y(y: i64, h: i64) -> (r: ClipCoord)
    requires
        0 < h < COORD_LIMIT,
        -COORD_LIMIT < y < COORD_LIMIT,
    ensures
        r == clip_y_spec(y, h),
        r.num == h - 2 * y,
        r.den == h,
{
    ClipCoord { num: h - 2 * y, den: h }
}

/// Law: for every screen size with positive width and height, the clip-space
/// transform maps the top-left screen corner `(0, 0)` to `(-1, 1)` and the
/// bottom-right corner `(width, height)` to `(1, -1)`, exactly.
pub proof fn lemma_clip_transform_corners(w: i64, h: i64)
    requires
        0 < w < COORD_LIMIT,
        0 < h < COORD_LIMIT,
    ensures
        clip_x_spec(0, w).equals_int(-1),
        clip_y_spec(0, h).equals_int(1),
        clip_x_spec(w, w).equals_int(1),
        clip_y_spec(h, h).equals_int(-1),
{
}

/// `v` clamped to `[0, hi]`.
pub open spec fn clamp_spec(v: i64, hi: i64) -> i64 {
    if v < 0 {
        0
    } else if v > hi {
        hi
    } else {
        v
    }
}

/// Clamps a pixel coordinate to `[0, hi]`.
pub fn clamp_to(v: i64, hi: i64) -> (r: i64)
    requires
        hi >= 0,
    ensures
        r == clamp_spec(v, hi),
{
    if v < 0 {
        0
    } else if v > hi {
        hi
    } else {
        v
    }
}

/// The scissor rectangle for a UI clip rectangle: each side clamped to the
/// screen bounds and narrowed to the device's integer pixel type.
pub open spec fn scissor_spec(clip: ClipRectUi, screen: ScreenSize) -> ScissorRect {
    ScissorRect {
        left: clamp_spec(clip.left, screen.width as i64) as i32,
        top: clamp_spec(clip.top, screen.height as i64) as i32,
        right: clamp_spec(clip.right, screen.width as i64) as i32,
        bottom: clamp_spec(clip.bottom, screen.height as i64) as i32,
    }
}

/// Clamps a toolkit clip rectangle to the screen and converts it to integer
/// scissor bounds.
pub fn scissor_for(clip: ClipRectUi, screen: ScreenSize) -> (r: ScissorRect)
    requires
        screen.wf(),
    ensures
        r == scissor_spec(clip, screen),
        0 <= r.left <= screen.width,
        0 <= r.top <= screen.height,
        0 <= r.right <= screen.width,
        0 <= r.bottom <= screen.height,
{
    let w = screen.width as i64;
    let h = screen.height as i64;
    ScissorRect {
        left: clamp_to(clip.left, w) as i32,
        top: clamp_to(clip.top, h) as i32,
        right: clamp_to(clip.right, w) as i32,
        bottom: clamp_to(clip.bottom, h) as i32,
    }
}

/// A tessellated mesh as the toolkit hands it over, in UI pixel space.
#[derive(Clone, PartialEq, Eq, Debug)]
pub struct UiMesh {
    pub vertices: Vec<UiVertex>,
    pub indices: Vec<u32>,
    pub texture_id: u64,
}

impl UiMesh {
    /// Every vertex position is small enough for the exact transform.
    pub open spec fn wf(self) -> bool {
        forall|i: int| 0 <= i < self.vertices@.len() ==> (#[trigger] self.vertices@[i]).wf()
    }
}

/// A mesh ready for submission: clip-space vertices, the index list
/// unchanged, the texture id unchanged, and the clamped scissor bounds.
#[derive(Clone, PartialEq, Eq, Debug)]
pub struct GpuMesh {
    pub vertices: Vec<GpuVertex>,
    pub indices: Vec<u32>,
    pub texture_id: u64,
    pub clip: ScissorRect,
}

/// The clip-space image of one UI vertex: position transformed, texture
/// coordinate and color unchanged.
pub open spec fn vertex_spec(v: UiVertex, screen: ScreenSize) -> GpuVertex {
    GpuVertex {
        x: clip_x_spec(v.x, screen.width as i64),
        y: clip_y_spec(v.y, screen.height as i64),
        u_bits: v.u_bits,
        v_bits: v.v_bits,
        color: v.color,
    }
}

/// `r` is exactly the conversion of `mesh` under `clip` and `screen`:
/// vertices transformed pointwise, indices and texture id unchanged,
/// scissor clamped.
pub open spec fn mesh_converted(
    screen: ScreenSize,
    mesh: UiMesh,
    clip: ClipRectUi,
    r: GpuMesh,
) -> bool {
    &&& r.vertices@.len() == mesh.vertices@.len()
    &&& forall|i: int|
        0 <= i < mesh.vertices@.len() ==> r.vertices@[i] == vertex_spec(
            #[trigger] mesh.vertices@[i],
            screen,
        )
    &&& r.indices@ == mesh.indices@
    &&& r.texture_id == mesh.texture_id
    &&& r.clip == scissor_spec(clip, screen)
}

/// Transforms one vertex into clip space.
pub fn convert_vertex(v: UiVertex, screen: ScreenSize) -> (r: GpuVertex)
    requires
        v.wf(),
        screen.wf(),
    ensures
        r == vertex_spec(v, screen),
{
    GpuVertex {
        x: clip_x(v.x, screen.width as i64),
        y: clip_y(v.y, screen.height as i64),
        u_bits: v.u_bits,
        v_bits: v.v_bits,
        color: v.color,
    }
}

impl GpuMesh {
    /// Builds a GPU mesh from toolkit output.  A mesh with no vertices or no
    /// indices is dropped (`None`) rather than turned into a degenerate draw
    /// call; otherwise the result is exactly the pointwise conversion.
    pub fn from_mesh(screen: ScreenSize, mesh: UiMesh, clip: ClipRectUi) -> (r: Option<GpuMesh>)
        requires
            screen.wf(),
            mesh.wf(),
        ensures
            r.is_some() <==> (mesh.vertices@.len() > 0 && mesh.indices@.len() > 0),
            r.is_some() ==> mesh_converted(screen, mesh, clip, r.unwrap()),
    {
        if mesh.vertices.len() == 0 || mesh.indices.len() == 0 {
            return None;
        }
        let mut vertices: Vec<GpuVertex> = Vec::new();
        let mut i: usize = 0;
        while i < mesh.vertices.len()
            invariant
                i <= mesh.vertices@.len(),
                vertices@.len() == i,
                screen.wf(),
                mesh.wf(),
                forall|j: int|
                    0 <= j < i ==> vertices@[j] == vertex_spec(
                        #[trigger] mesh.vertices@[j],
                        screen,
                    ),
            decreases mesh.vertices@.len() - i,
        {
            let v = mesh.vertices[i];
            vertices.push(convert_vertex(v, screen));
            i = i + 1;
        }
        Some(
            GpuMesh {
                vertices,
                indices: mesh.indices,
                texture_id: mesh.texture_id,
                clip: scissor_for(clip, screen),
            },
        )
    }
}

} // verus!
