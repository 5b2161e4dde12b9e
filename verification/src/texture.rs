//! Texture allocator: the mapping from toolkit texture ids to texture
//! contents, fed each frame by the toolkit's texture deltas.
//!
//! A texture is a rectangular grid of packed 32-bit RGBA pixels.  A delta
//! either sets a region of a texture (creating or reallocating it when the
//! id is new or the region does not fit) or frees an id.  Looking up an id
//! that was freed or never created yields "not present", which the
//! orchestrator treats as "no texture bound", not as an error.

use vstd::prelude::*;
use vstd::map::*;

use crate::GeneralReason;
use crate::RenderError;

verus! {

/// Largest texture edge the device accepts, in pixels.
pub const MAX_TEXTURE_DIM: u32 = 16384;

/// The mathematical content of a texture or of an update patch: a grid of
/// packed RGBA pixels, row-major.
#[verifier::ext_equal]
pub struct TexModel {
    pub width: int,
    pub height: int,
    pub pixels: Seq<Seq<u32>>,
}

impl TexModel {
    /// The grid matches the stated dimensions.
    pub open spec fn wf(self) -> bool {
        &&& 0 <= self.width
        &&& 0 <= self.height
        &&& self.pixels.len() == self.height
        &&& forall|r: int| 0 <= r < self.height ==> (#[trigger] self.pixels[r]).len() == self.width
    }
}

/// A texture held by the allocator: dimensions and row-major pixel rows.
#[derive(Clone, PartialEq, Eq, Debug)]
pub struct Texture {
    pub width: u32,
    pub height: u32,
    pub rows: Vec<Vec<u32>>,
}

impl Texture {
    /// The rows match the dimensions and the dimensions fit the device.
    pub open spec fn wf(self) -> bool {
        &&& self.width <= MAX_TEXTURE_DIM
        &&& self.height <= MAX_TEXTURE_DIM
        &&& self.rows@.len() == self.height
        &&& forall|r: int| 0 <= r < self.height ==> (#[trigger] self.rows@[r])@.len() == self.width
    }
}

impl View for Texture {
    type V = TexModel;

    open spec fn view(&self) -> TexModel {
        TexModel {
            width: self.width as int,
            height: self.height as int,
            pixels: self.rows@.map_values(|row: Vec<u32>| row@),
        }
    }
}

/// An update patch as the toolkit hands it over.
#[derive(Clone, PartialEq, Eq, Debug)]
pub struct ImagePatch {
    pub width: u32,
    pub height: u32,
    pub rows: Vec<Vec<u32>>,
}

impl ImagePatch {
    /// The rows match the dimensions and the dimensions fit the device.
    pub open spec fn wf(self) -> bool {
        &&& self.width <= MAX_TEXTURE_DIM
        &&& self.height <= MAX_TEXTURE_DIM
        &&& self.rows@.len() == self.height
        &&& forall|r: int| 0 <= r < self.height ==> (#[trigger] self.rows@[r])@.len() == self.width
    }
}

impl View for ImagePatch {
    type V = TexModel;

    open spec fn view(&self) -> TexModel {
        TexModel {
            width: self.width as int,
            height: self.height as int,
            pixels: self.rows@.map_values(|row: Vec<u32>| row@),
        }
    }
}

/// Pixel offset of a partial update into its target texture.
#[derive(Clone, Copy, PartialEq, Eq, Structural, Debug)]
pub struct PatchPos {
    pub x: u32,
    pub y: u32,
}

/// One texture operation: set a region (a full upload when `pos` is absent)
/// or free the id.
#[derive(Clone, PartialEq, Eq, Debug)]
pub enum TextureOp {
    Update { pos: Option<PatchPos>, image: ImagePatch },
    Free,
}

/// One toolkit-reported texture delta.
#[derive(Clone, PartialEq, Eq, Debug)]
pub struct TextureDelta {
    pub id: u64,
    pub op: TextureOp,
}

impl TextureDelta {
    /// The carried patch, if any, is well formed.
    pub open spec fn wf(self) -> bool {
        match self.op {
            TextureOp::Update { pos, image } => image.wf(),
            TextureOp::Free => true,
        }
    }
}

/// The mathematical content of one delta: a set at an offset (a full upload
/// is a set at the origin) or a free.
pub enum OpModel {
    Update { px: int, py: int, patch: TexModel },
    Free,
}

/// A delta over the model state.
pub struct DeltaModel {
    pub id: u64,
    pub op: OpModel,
}

impl View for TextureDelta {
    type V = DeltaModel;

    open spec fn view(&self) -> DeltaModel {
        DeltaModel {
            id: self.id,
            op: match self.op {
                TextureOp::Update { pos, image } => OpModel::Update {
                    px: match pos {
                        Some(p) => p.x as int,
                        None => 0,
                    },
                    py: match pos {
                        Some(p) => p.y as int,
                        None => 0,
                    },
                    patch: image@,
                },
                TextureOp::Free => OpModel::Free,
            },
        }
    }
}

/// One row after writing `prow` into it starting at column `px`.
pub open spec fn row_write_spec(row: Seq<u32>, px: int, prow: Seq<u32>) -> Seq<u32> {
    Seq::new(row.len(), |c: int| if px <= c < px + prow.len() {
        prow[c - px]
    } else {
        row[c]
    })
}

/// The texture after writing `p` into `t` with its top-left corner at
/// `(px, py)`: pixels inside the patch region come from the patch, all
/// others are unchanged, and the dimensions are kept.
pub open spec fn write_patch_spec(t: TexModel, px: int, py: int, p: TexModel) -> TexModel {
    TexModel {
        width: t.width,
        height: t.height,
        pixels: Seq::new(t.pixels.len(), |r: int| if py <= r < py + p.height {
            row_write_spec(t.pixels[r], px, p.pixels[r - py])
        } else {
            t.pixels[r]
        }),
    }
}

/// A fresh texture of the given dimensions, all pixels zero.
pub open spec fn blank_spec(w: int, h: int) -> TexModel {
    TexModel {
        width: w,
        height: h,
        pixels: Seq::new(h as nat, |r: int| Seq::new(w as nat, |c: int| 0u32)),
    }
}

/// The mapping after one delta, or `None` when the delta asks for a texture
/// beyond the device limit (a failed allocation).  A set whose region fits
/// inside the existing texture updates it in place; otherwise a fresh
/// zeroed texture sized to cover the update is allocated first and the
/// pixels are written into it (create-then-write).
pub open spec fn apply_delta_spec(m: Map<u64, TexModel>, d: DeltaModel) -> Option<
    Map<u64, TexModel>,
> {
    match d.op {
        OpModel::Free => Some(m.remove(d.id)),
        OpModel::Update { px, py, patch } => {
            if m.contains_key(d.id) && px + patch.width <= m[d.id].width && py + patch.height
                <= m[d.id].height {
                Some(m.insert(d.id, write_patch_spec(m[d.id], px, py, patch)))
            } else if px + patch.width <= MAX_TEXTURE_DIM && py + patch.height
                <= MAX_TEXTURE_DIM {
                Some(
                    m.insert(
                        d.id,
                        write_patch_spec(
                            blank_spec(px + patch.width, py + patch.height),
                            px,
                            py,
                            patch,
                        ),
                    ),
                )
            } else {
                None
            }
        },
    }
}

/// The mapping after an ordered run of deltas, or `None` as soon as one
/// fails.
pub open spec fn apply_deltas_spec(m: Map<u64, TexModel>, ds: Seq<DeltaModel>) -> Option<
    Map<u64, TexModel>,
>
    decreases ds.len(),
{
    if ds.len() == 0 {
        Some(m)
    } else {
        match apply_delta_spec(m, ds[0]) {
            Some(m2) => apply_deltas_spec(m2, ds.drop_first()),
            None => None,
        }
    }
}

/// The model view of a sequence of deltas.
pub open spec fn deltas_view(ds: Seq<TextureDelta>) -> Seq<DeltaModel> {
    ds.map_values(|d: TextureDelta| d@)
}

/// The texture allocator: id-to-texture entries with unique ids.
pub struct TextureAllocator {
    entries: Vec<(u64, Texture)>,
}

impl TextureAllocator {
    /// Some entry carries this id.
    pub closed spec fn has_id(self, id: u64) -> bool {
        exists|i: int| 0 <= i < self.entries@.len() && (#[trigger] self.entries@[i]).0 == id
    }

    /// The content of the texture carried under this id.
    pub closed spec fn tex_at(self, id: u64) -> TexModel {
        self.entries@[choose|i: int|
            0 <= i < self.entries@.len() && (#[trigger] self.entries@[i]).0 == id].1@
    }

    /// Ids are unique and every texture is well formed.
    pub closed spec fn wf(self) -> bool {
        &&& forall|i: int, j: int|
            0 <= i < j < self.entries@.len() ==> (#[trigger] self.entries@[i]).0 != (
            #[trigger] self.entries@[j]).0
        &&& forall|i: int|
            0 <= i < self.entries@.len() ==> (#[trigger] self.entries@[i]).1.wf()
    }

    /// A fresh allocator with no textures.
    pub fn new() -> (r: TextureAllocator)
        ensures
            r.wf(),
            r@ == Map::<u64, TexModel>::empty(),
    {
        let r = TextureAllocator { entries: Vec::new() };
        proof {
            let m = r.view();
            let e = Map::<u64, TexModel>::empty();
            assert_maps_equal!(m, e);
        }
        r
    }

    /// The index of the entry carrying `id`, if any.
    fn find_index(&self, id: u64) -> (r: Option<usize>)
        ensures
            r.is_some() <==> self.has_id(id),
            r.is_some() ==> 0 <= r.unwrap() < self.entries@.len() && self.entries@[
                r.unwrap() as int].0 == id,
    {
        let mut i: usize = 0;
        while i < self.entries.len()
            invariant
                i <= self.entries@.len(),
                forall|j: int| 0 <= j < i ==> (#[trigger] self.entries@[j]).0 != id,
            decreases self.entries@.len() - i,
        {
            if self.entries[i].0 == id {
                return Some(i);
            }
            i = i + 1;
        }
        None
    }

    /// Looks a texture up by id.  Absent ids — freed or never created — give
    /// `None`, which callers treat as "no texture bound", not as an error.
    pub fn get_by_id(&self, id: u64) -> (r: Option<&Texture>)
        requires
            self.wf(),
        ensures
            r.is_some() <==> self@.contains_key(id),
            r.is_some() ==> r.unwrap()@ == self@[id] && r.unwrap().wf(),
    {
        let idx = self.find_index(id);
        match idx {
            Some(i) => {
                let entry = &self.entries[i];
                proof {
                    let j = choose|j: int|
                        0 <= j < self.entries@.len() && (#[trigger] self.entries@[j]).0 == id;
                    assert(j == i as int);
                }
                Some(&entry.1)
            },
            None => None,
        }
    }
}

/// Removing entry `i` keeps the allocator well formed and removes exactly
/// that entry's id from the abstract mapping.
proof fn lemma_remove_entry(pre: TextureAllocator, post: TextureAllocator, i: int)
    requires
        pre.wf(),
        0 <= i < pre.entries@.len(),
        post.entries@ == pre.entries@.remove(i),
    ensures
        post.wf(),
        post@ == pre@.remove(pre.entries@[i].0),
        !post.has_id(pre.entries@[i].0),
{
    let s = pre.entries@;
    let s2 = post.entries@;
    let kid = s[i].0;
    assert(s2.len() == s.len() - 1);
    assert forall|j: int| 0 <= j < s2.len() implies s2[j] == (if j < i {
        s[j]
    } else {
        s[j + 1]
    }) by {
        if j < i {
            assert(s2[j] == s.subrange(0, i)[j]);
        } else {
            assert(s2[j] == s.subrange(i + 1, s.len() as int)[j - i]);
        }
    }
    assert(post.wf());
    if post.has_id(kid) {
        let j = choose|j: int| 0 <= j < s2.len() && s2[j].0 == kid;
        if j < i {
            assert(s[j].0 == kid && s[i].0 == kid && j != i);
        } else {
            assert(s[j + 1].0 == kid && s[i].0 == kid && j + 1 != i);
        }
        assert(false);
    }
    let m1 = post.view();
    let m2 = pre.view().remove(kid);
    assert_maps_equal!(m1, m2, k => {
        if k != kid {
            if pre.has_id(k) {
                let j = choose|j: int| 0 <= j < s.len() && s[j].0 == k;
                if j < i {
                    assert(s2[j].0 == k);
                } else {
                    assert(j != i);
                    assert(s2[j - 1].0 == k);
                }
                assert(post.has_id(k));
            }
            if post.has_id(k) {
                let j = choose|j: int| 0 <= j < s2.len() && s2[j].0 == k;
                let p = if j < i { j } else { j + 1 };
                assert(s[p].0 == k);
                assert(pre.has_id(k));
                let j2 = choose|j2: int| 0 <= j2 < s.len() && s[j2].0 == k;
                assert(s[j2].0 == k);
                if p != j2 {
                    assert(false);
                }
                assert(post.tex_at(k) == s2[j].1@);
                assert(pre.tex_at(k) == s[j2].1@);
            }
        }
    });
}

/// Pushing a fresh id keeps the allocator well formed and inserts exactly
/// that id into the abstract mapping.
proof fn lemma_push_entry(pre: TextureAllocator, post: TextureAllocator, id: u64, tex: Texture)
    requires
        pre.wf(),
        !pre.has_id(id),
        tex.wf(),
        post.entries@ == pre.entries@.push((id, tex)),
    ensures
        post.wf(),
        post@ == pre@.insert(id, tex@),
{
    let s = pre.entries@;
    let s2 = post.entries@;
    assert forall|j: int| 0 <= j < s.len() implies s2[j] == s[j] by {}
    assert(s2[s.len() as int] == (id, tex));
    assert forall|a: int, b: int| 0 <= a < b < s2.len() implies s2[a].0 != s2[b].0 by {
        if b < s.len() {
        } else {
            assert(s2[b].0 == id);
            assert(s[a].0 != id);
        }
    }
    assert(post.wf());
    let m1 = post.view();
    let m2 = pre.view().insert(id, tex@);
    assert_maps_equal!(m1, m2, k => {
        if k == id {
            assert(s2[s.len() as int].0 == id);
            assert(post.has_id(id));
            let j = choose|j: int| 0 <= j < s2.len() && s2[j].0 == id;
            if j < s.len() {
                assert(s[j].0 == id);
                assert(false);
            }
            assert(post.tex_at(id) == tex@);
        } else {
            if pre.has_id(k) {
                let j = choose|j: int| 0 <= j < s.len() && s[j].0 == k;
                assert(s2[j].0 == k);
                assert(post.has_id(k));
            }
            if post.has_id(k) {
                let j = choose|j: int| 0 <= j < s2.len() && s2[j].0 == k;
                assert(j < s.len());
                assert(s[j].0 == k);
                assert(pre.has_id(k));
                let j2 = choose|j2: int| 0 <= j2 < s.len() && s[j2].0 == k;
                if j != j2 {
                    assert(false);
                }
                assert(post.tex_at(k) == s2[j].1@);
                assert(pre.tex_at(k) == s[j2].1@);
            }
        }
    });
}

impl TextureAllocator {
    /// Stores `tex` under `id`, replacing any previous texture with that id.
    fn put(&mut self, id: u64, tex: Texture)
        requires
            old(self).wf(),
            tex.wf(),
        ensures
            final(self).wf(),
            final(self)@ == old(self)@.insert(id, tex@),
    {
        let idx = self.find_index(id);
        match idx {
            Some(i) => {
                let ghost pre = *self;
                self.entries.remove(i);
                proof {
                    lemma_remove_entry(pre, *self, i as int);
                }
                let ghost mid = *self;
                self.entries.push((id, tex));
                proof {
                    assert(!mid@.contains_key(id));
                    lemma_push_entry(mid, *self, id, tex);
                    let m1 = self.view();
                    let m2 = pre.view().insert(id, tex@);
                    assert_maps_equal!(m1, m2);
                }
            },
            None => {
                let ghost pre = *self;
                self.entries.push((id, tex));
                proof {
                    lemma_push_entry(pre, *self, id, tex);
                }
            },
        }
    }

    /// Frees the texture under `id`; freeing an absent id changes nothing.
    pub fn free(&mut self, id: u64)
        requires
            old(self).wf(),
        ensures
            final(self).wf(),
            final(self)@ == old(self)@.remove(id),
    {
        let idx = self.find_index(id);
        match idx {
            Some(i) => {
                let ghost pre = *self;
                self.entries.remove(i);
                proof {
                    lemma_remove_entry(pre, *self, i as int);
                }
            },
            None => {
                proof {
                    assert(!self@.contains_key(id));
                    let m1 = self.view();
                    let m2 = self.view().remove(id);
                    assert_maps_equal!(m1, m2);
                }
            },
        }
    }
}

impl View for TextureAllocator {
    type V = Map<u64, TexModel>;

    /// The abstract mapping from id to texture content.
    open spec fn view(&self) -> Map<u64, TexModel> {
        Map::new(|id: u64| self.has_id(id), |id: u64| self.tex_at(id))
    }
}

/// Builds a fresh texture of the given dimensions with every pixel zero.
fn blank_texture(w: u32, h: u32) -> (t: Texture)
    requires
        w <= MAX_TEXTURE_DIM,
        h <= MAX_TEXTURE_DIM,
    ensures
        t.wf(),
        t@ == blank_spec(w as int, h as int),
{
    let mut rows: Vec<Vec<u32>> = Vec::new();
    let mut r: usize = 0;
    while r < h as usize
        invariant
            r <= h,
            rows@.len() == r,
            forall|j: int|
                0 <= j < r ==> (#[trigger] rows@[j])@ == Seq::new(w as nat, |c: int| 0u32),
        decreases h - r,
    {
        let mut row: Vec<u32> = Vec::new();
        let mut c: usize = 0;
        while c < w as usize
            invariant
                c <= w,
                row@.len() == c,
                forall|k: int| 0 <= k < c ==> row@[k] == 0u32,
            decreases w - c,
        {
            row.push(0);
            c = c + 1;
        }
        proof {
            assert(row@ =~= Seq::new(w as nat, |c: int| 0u32));
        }
        rows.push(row);
        r = r + 1;
    }
    let t = Texture { width: w, height: h, rows };
    proof {
        let b = blank_spec(w as int, h as int);
        assert forall|j: int| 0 <= j < t@.pixels.len() implies t@.pixels[j] =~= b.pixels[j] by {
            assert(t@.pixels[j] == t.rows@[j]@);
        }
        assert(t@.pixels =~~= b.pixels);
        assert(t@ =~~= b);
    }
    t
}

/// Writes an update patch into an existing texture at the given offset,
/// in place: pixels in the patch region take the patch values, every
/// other pixel and the dimensions are unchanged.
fn write_patch(tex: &mut Texture, px: u32, py: u32, image: &ImagePatch)
    requires
        old(tex).wf(),
        image.wf(),
        px + image.width <= old(tex).width,
        py + image.height <= old(tex).height,
    ensures
        final(tex).wf(),
        final(tex)@ == write_patch_spec(old(tex)@, px as int, py as int, image@),
{
    let mut r: usize = 0;
    while r < image.height as usize
        invariant
            r <= image.height,
            image.wf(),
            old(tex).wf(),
            px + image.width <= old(tex).width,
            py + image.height <= old(tex).height,
            tex.width == old(tex).width,
            tex.height == old(tex).height,
            tex.rows@.len() == old(tex).rows@.len(),
            forall|j: int|
                0 <= j < tex.rows@.len() ==> (#[trigger] tex.rows@[j])@.len() == old(
                    tex,
                ).rows@[j]@.len(),
            forall|j: int|
                0 <= j < tex.rows@.len() && !(py <= j < py + r) ==> (#[trigger] tex.rows@[j])@
                    == old(tex).rows@[j]@,
            forall|j: int|
                py <= j < py + r ==> (#[trigger] tex.rows@[j])@ == row_write_spec(
                    old(tex).rows@[j]@,
                    px as int,
                    image.rows@[j - py]@,
                ),
        decreases image.height - r,
    {
        let row_i: usize = py as usize + r;
        let mut c: usize = 0;
        while c < image.width as usize
            invariant
                c <= image.width,
                r < image.height,
                image.wf(),
                old(tex).wf(),
                px + image.width <= old(tex).width,
                py + image.height <= old(tex).height,
                row_i == py + r,
                tex.width == old(tex).width,
                tex.height == old(tex).height,
                tex.rows@.len() == old(tex).rows@.len(),
                forall|j: int|
                    0 <= j < tex.rows@.len() ==> (#[trigger] tex.rows@[j])@.len() == old(
                        tex,
                    ).rows@[j]@.len(),
                forall|j: int|
                    0 <= j < tex.rows@.len() && !(py <= j <= py + r) ==> (
                    #[trigger] tex.rows@[j])@ == old(tex).rows@[j]@,
                forall|j: int|
                    py <= j < py + r ==> (#[trigger] tex.rows@[j])@ == row_write_spec(
                        old(tex).rows@[j]@,
                        px as int,
                        image.rows@[j - py]@,
                    ),
                forall|k: int|
                    0 <= k < tex.rows@[row_i as int]@.len() && !(px <= k < px + c) ==> (
                    #[trigger] tex.rows@[row_i as int]@[k]) == old(tex).rows@[row_i as int]@[k],
                forall|k: int|
                    px <= k < px + c ==> (#[trigger] tex.rows@[row_i as int]@[k])
                        == image.rows@[r as int]@[k - px],
            decreases image.width - c,
        {
            let v: u32 = image.rows[r][c];
            tex.rows[row_i].set(px as usize + c, v);
            c = c + 1;
        }
        proof {
            assert(tex.rows@[row_i as int]@ =~= row_write_spec(
                old(tex).rows@[row_i as int]@,
                px as int,
                image.rows@[r as int]@,
            ));
        }
        r = r + 1;
    }
    proof {
        let w = write_patch_spec(old(tex)@, px as int, py as int, image@);
        assert forall|j: int| 0 <= j < tex@.pixels.len() implies tex@.pixels[j] =~= w.pixels[j] by {
            assert(tex@.pixels[j] == tex.rows@[j]@);
            assert(old(tex)@.pixels[j] == old(tex).rows@[j]@);
            if py <= j < py + image.height {
                assert(image@.pixels[j - py] == image.rows@[j - py]@);
            }
        }
        assert(tex@.pixels =~~= w.pixels);
        assert(tex@ =~~= w);
    }
}

/// The model of a region-update delta: a full upload (`pos` absent) is an
/// update at the origin.
pub open spec fn update_delta_model(id: u64, pos: Option<PatchPos>, image: ImagePatch) -> DeltaModel {
    DeltaModel {
        id,
        op: OpModel::Update {
            px: match pos {
                Some(p) => p.x as int,
                None => 0,
            },
            py: match pos {
                Some(p) => p.y as int,
                None => 0,
            },
            patch: image@,
        },
    }
}

impl TextureAllocator {
    /// Applies one region update: in place when the region fits inside the
    /// existing texture under `id`, else by allocating a fresh zeroed
    /// texture sized to cover the update and writing the patch into it.
    /// Asking for a texture beyond the device limit fails and leaves the
    /// whole mapping unchanged.
    pub fn apply_update(&mut self, id: u64, pos: Option<PatchPos>, image: ImagePatch) -> (r:
        Result<(), RenderError>)
        requires
            old(self).wf(),
            image.wf(),
        ensures
            final(self).wf(),
            ({
                let am = apply_delta_spec(old(self)@, update_delta_model(id, pos, image));
                if am.is_some() {
                    r == Ok::<(), RenderError>(()) && final(self)@ == am.unwrap()
                } else {
                    r == Err::<(), RenderError>(
                        RenderError::General(GeneralReason::TextureAllocation),
                    ) && final(self)@ == old(self)@
                }
            }),
    {
        let px: u32 = match pos {
            Some(p) => p.x,
            None => 0,
        };
        let py: u32 = match pos {
            Some(p) => p.y,
            None => 0,
        };
        let fits: bool = match self.get_by_id(id) {
            Some(t) => px as u64 + image.width as u64 <= t.width as u64 && py as u64
                + image.height as u64 <= t.height as u64,
            None => false,
        };
        if fits {
            let idx = self.find_index(id);
            match idx {
                Some(i) => {
                    let ghost pre = *self;
                    proof {
                        let j = choose|j: int|
                            0 <= j < self.entries@.len() && (#[trigger] self.entries@[j]).0 == id;
                        assert(j == i as int);
                    }
                    let entry = self.entries.remove(i);
                    proof {
                        lemma_remove_entry(pre, *self, i as int);
                    }
                    let mut tex = entry.1;
                    proof {
                        assert(tex@ == pre@[id]);
                    }
                    write_patch(&mut tex, px, py, &image);
                    self.put(id, tex);
                    proof {
                        let m1 = self.view();
                        let m2 = pre.view().insert(
                            id,
                            write_patch_spec(pre@[id], px as int, py as int, image@),
                        );
                        assert_maps_equal!(m1, m2);
                    }
                    Ok(())
                },
                None => {
                    // unreachable: a texture was found just above
                    proof {
                        assert(false);
                    }
                    Err(RenderError::General(GeneralReason::TextureAllocation))
                },
            }
        } else {
            let nw64: u64 = px as u64 + image.width as u64;
            let nh64: u64 = py as u64 + image.height as u64;
            if nw64 > MAX_TEXTURE_DIM as u64 || nh64 > MAX_TEXTURE_DIM as u64 {
                return Err(RenderError::General(GeneralReason::TextureAllocation));
            }
            let mut tex = blank_texture(nw64 as u32, nh64 as u32);
            write_patch(&mut tex, px, py, &image);
            self.put(id, tex);
            Ok(())
        }
    }

    /// Applies one toolkit delta: a region update or a free.
    pub fn apply_delta(&mut self, delta: TextureDelta) -> (r: Result<(), RenderError>)
        requires
            old(self).wf(),
            delta.wf(),
        ensures
            final(self).wf(),
            ({
                let am = apply_delta_spec(old(self)@, delta@);
                if am.is_some() {
                    r == Ok::<(), RenderError>(()) && final(self)@ == am.unwrap()
                } else {
                    r == Err::<(), RenderError>(
                        RenderError::General(GeneralReason::TextureAllocation),
                    ) && final(self)@ == old(self)@
                }
            }),
    {
        match delta.op {
            TextureOp::Update { pos, image } => self.apply_update(delta.id, pos, image),
            TextureOp::Free => {
                self.free(delta.id);
                Ok(())
            },
        }
    }

    /// Applies an ordered run of toolkit deltas.  On success the mapping is
    /// the fold of all of them; on a failed allocation the run stops there,
    /// the deltas before the failing one stay applied, and ids the failing
    /// delta did not touch are untouched.
    #[verifier::loop_isolation(false)]
    pub fn process_deltas(&mut self, deltas: Vec<TextureDelta>) -> (r: Result<(), RenderError>)
        requires
            old(self).wf(),
            forall|i: int| 0 <= i < deltas@.len() ==> (#[trigger] deltas@[i]).wf(),
        ensures
            final(self).wf(),
            r.is_ok() ==> r == Ok::<(), RenderError>(()) && ({
                let am = apply_deltas_spec(old(self)@, deltas_view(deltas@));
                am.is_some() && final(self)@ == am.unwrap()
            }),
            r.is_err() ==> r == Err::<(), RenderError>(
                RenderError::General(GeneralReason::TextureAllocation),
            ) && apply_deltas_spec(old(self)@, deltas_view(deltas@)).is_none() && (exists|k: int|
                #![trigger deltas_view(deltas@).take(k)]
                0 <= k < deltas@.len() && ({
                    let pm = apply_deltas_spec(old(self)@, deltas_view(deltas@).take(k));
                    pm.is_some() && apply_delta_spec(
                        pm.unwrap(),
                        deltas_view(deltas@)[k],
                    ).is_none() && final(self)@ == pm.unwrap()
                })),
    {
        let ghost orig = deltas@;
        let ghost dv = deltas_view(orig);
        let ghost m0 = self@;
        let mut rest = deltas;
        let ghost k: int = 0;
        while rest.len() > 0
            invariant
                self.wf(),
                0 <= k <= orig.len(),
                rest@ == orig.skip(k),
                dv == deltas_view(orig),
                m0 == old(self)@,
                forall|i: int| 0 <= i < orig.len() ==> (#[trigger] orig[i]).wf(),
                apply_deltas_spec(m0, dv.take(k)) == Some(self@),
            decreases rest@.len(),
        {
            let ghost pre = self@;
            let d = rest.remove(0);
            proof {
                assert(d == orig[k]);
                assert(rest@ =~= orig.skip(k + 1));
                assert(d@ == dv[k]);
            }
            let step = self.apply_delta(d);
            proof {
                lemma_apply_deltas_split(m0, dv, k);
            }
            match step {
                Ok(()) => {
                    proof {
                        lemma_apply_deltas_split(m0, dv.take(k + 1), k);
                        assert(dv.take(k + 1).take(k) =~= dv.take(k));
                        let tail = dv.take(k + 1).skip(k);
                        assert(tail.len() == 1);
                        assert(tail[0] == dv[k]);
                        assert(tail.drop_first() =~= Seq::<DeltaModel>::empty());
                        assert(apply_deltas_spec(self@, tail.drop_first()) == Some(self@));
                        assert(apply_deltas_spec(m0, dv.take(k + 1)) == Some(self@));
                    }
                    proof {
                        k = k + 1;
                    }
                },
                Err(e) => {
                    proof {
                        let tail = dv.skip(k);
                        assert(tail.len() > 0);
                        assert(tail[0] == dv[k]);
                        assert(apply_delta_spec(pre, dv[k]).is_none());
                        assert(apply_deltas_spec(pre, tail).is_none());
                        assert(apply_deltas_spec(m0, dv).is_none());
                        assert(0 <= k < orig.len() && ({
                            let pm = apply_deltas_spec(m0, deltas_view(orig).take(k));
                            pm.is_some() && apply_delta_spec(
                                pm.unwrap(),
                                deltas_view(orig)[k],
                            ).is_none() && self@ == pm.unwrap()
                        }));
                    }
                    return Err(e);
                },
            }
        }
        proof {
            assert(dv.take(k) =~= dv);
        }
        Ok(())
    }
}

/// Splitting a delta run at `k`: the whole run is the run of the first `k`
/// deltas followed, when that prefix succeeds, by the run of the rest.
pub proof fn lemma_apply_deltas_split(m: Map<u64, TexModel>, ds: Seq<DeltaModel>, k: int)
    requires
        0 <= k <= ds.len(),
    ensures
        apply_deltas_spec(m, ds) == (if apply_deltas_spec(m, ds.take(k)).is_some() {
            apply_deltas_spec(apply_deltas_spec(m, ds.take(k)).unwrap(), ds.skip(k))
        } else {
            None::<Map<u64, TexModel>>
        }),
    decreases k,
{
    if k == 0 {
        assert(ds.take(0) =~= Seq::<DeltaModel>::empty());
        assert(ds.skip(0) =~= ds);
    } else {
        assert(ds.len() > 0);
        assert(ds.take(k)[0] == ds[0]);
        match apply_delta_spec(m, ds[0]) {
            Some(m2) => {
                assert(ds.take(k).drop_first() =~= ds.drop_first().take(k - 1));
                assert(ds.skip(k) =~= ds.drop_first().skip(k - 1));
                lemma_apply_deltas_split(m2, ds.drop_first(), k - 1);
            },
            None => {
                assert(apply_deltas_spec(m, ds).is_none());
                assert(apply_deltas_spec(m, ds.take(k)).is_none());
            },
        }
    }
}

/// Law: a region update addressed to an id that was never created first
/// allocates a fresh zeroed texture sized to cover the update and then
/// writes the pixel data into it — create-then-write, never a write into an
/// absent texture.
pub proof fn lemma_update_to_absent_creates(
    m: Map<u64, TexModel>,
    id: u64,
    px: int,
    py: int,
    patch: TexModel,
)
    requires
        !m.contains_key(id),
        patch.wf(),
        0 <= px,
        0 <= py,
        px + patch.width <= MAX_TEXTURE_DIM,
        py + patch.height <= MAX_TEXTURE_DIM,
    ensures
        ({
            let am = apply_delta_spec(m, DeltaModel { id, op: OpModel::Update { px, py, patch } });
            &&& am.is_some()
            &&& am.unwrap().contains_key(id)
            &&& am.unwrap()[id].width == px + patch.width
            &&& am.unwrap()[id].height == py + patch.height
            &&& forall|r: int, c: int|
                0 <= r < patch.height && 0 <= c < patch.width ==> am.unwrap()[id].pixels[py + r][
                    px + c] == patch.pixels[r][c]
            &&& forall|r: int, c: int|
                0 <= r < py + patch.height && 0 <= c < px + patch.width && !(py <= r && px <= c)
                    ==> am.unwrap()[id].pixels[r][c] == 0u32
        }),
{
}

/// Law: freeing an id removes it from the mapping, whatever it held, so any
/// later lookup of that id finds no texture.
pub proof fn lemma_free_removes(m: Map<u64, TexModel>, id: u64)
    ensures
        ({
            let am = apply_delta_spec(m, DeltaModel { id, op: OpModel::Free });
            am.is_some() && !am.unwrap().contains_key(id)
        }),
{
}

} // verus!
