//! One frame's 3D scene snapshot, handed from the timing thread to the
//! rasterizer: texture and texture-palette memory split into independently
//! dirtiable chunks, plus bounded vertex and polygon lists with live counts.
//!
//! A submission replaces the live snapshot in place; chunks whose dirty bit is
//! clear keep their previous bytes, so a clean chunk survives byte for byte.

use vstd::prelude::*;

verus! {

/// Total texture memory per frame, in bytes.
pub const TEXTURE_LEN: usize = 0x8_0000;

/// Texture memory is dirtied in four chunks of this many bytes.
pub const TEXTURE_CHUNK_LEN: usize = 0x2_0000;

/// Total texture-palette memory per frame, in bytes.
pub const TEX_PAL_LEN: usize = 0x1_8000;

/// Palette memory is dirtied in six chunks of this many bytes.
pub const TEX_PAL_CHUNK_LEN: usize = 0x4000;

/// Capacity of the vertex list.
pub const VERT_RAM_CAP: usize = 6144;

/// Capacity of the polygon list.
pub const POLY_RAM_CAP: usize = 2048;

/// One entry of the vertex list. Its payload is opaque to the pipeline: the
/// handoff machinery only moves it, it never interprets it.
#[derive(Clone, Copy, PartialEq, Eq, Structural, Debug)]
pub struct Vertex {
    pub raw: u64,
}

/// One entry of the polygon list, opaque to the pipeline like [`Vertex`].
#[derive(Clone, Copy, PartialEq, Eq, Structural, Debug)]
pub struct Polygon {
    pub raw: u64,
}

/// Which texture chunk a byte index falls in (the chunk length is `1 << 17`).
pub open spec fn tex_chunk_of(j: usize) -> u8 {
    ((j as u32) >> 17) as u8
}

/// Which palette chunk a byte index falls in (the chunk length is `1 << 14`).
pub open spec fn pal_chunk_of(j: usize) -> u8 {
    ((j as u32) >> 14) as u8
}

/// Whether a dirty bitmask selects the given chunk.
pub open spec fn chunk_dirty(mask: u8, chunk: u8) -> bool {
    chunk < 8 && mask & (1u8 << chunk) != 0
}

/// Mathematical model of a snapshot.
#[verifier::ext_equal]
pub struct InputsModel {
    pub texture: Seq<u8>,
    pub tex_pal: Seq<u8>,
    pub vert_ram: Seq<Vertex>,
    pub poly_ram: Seq<Polygon>,
    pub vert_ram_level: u16,
    pub poly_ram_level: u16,
}

impl InputsModel {
    /// The shape every snapshot keeps for its whole lifetime.
    pub open spec fn wf(self) -> bool {
        &&& self.texture.len() == TEXTURE_LEN
        &&& self.tex_pal.len() == TEX_PAL_LEN
        &&& self.vert_ram.len() == VERT_RAM_CAP
        &&& self.poly_ram.len() == POLY_RAM_CAP
        &&& self.vert_ram_level <= VERT_RAM_CAP
        &&& self.poly_ram_level <= POLY_RAM_CAP
    }
}

/// The result of merging a submission's texture bytes over the previous ones:
/// a byte changes exactly when its chunk is selected by the dirty mask.
pub open spec fn merged_texture(prev: Seq<u8>, new: Seq<u8>, mask: u8) -> Seq<u8> {
    Seq::new(prev.len(), |j: int| if chunk_dirty(mask, tex_chunk_of(j as usize)) {
        new[j]
    } else {
        prev[j]
    })
}

/// The palette counterpart of [`merged_texture`].
pub open spec fn merged_tex_pal(prev: Seq<u8>, new: Seq<u8>, mask: u8) -> Seq<u8> {
    Seq::new(prev.len(), |j: int| if chunk_dirty(mask, pal_chunk_of(j as usize)) {
        new[j]
    } else {
        prev[j]
    })
}

/// The result of replacing the first `new.len()` entries of a bounded list and
/// leaving the tail as it was.
pub open spec fn replaced_prefix<T>(prev: Seq<T>, new: Seq<T>) -> Seq<T> {
    Seq::new(prev.len(), |i: int| if i < new.len() {
        new[i]
    } else {
        prev[i]
    })
}

/// What one whole submission does to the live snapshot: partial texture and
/// palette merges, full list replacement, new live counts.
pub open spec fn apply_submission_spec(
    m: InputsModel,
    texture: Seq<u8>,
    tex_pal: Seq<u8>,
    vert_ram: Seq<Vertex>,
    poly_ram: Seq<Polygon>,
    texture_dirty: u8,
    tex_pal_dirty: u8,
) -> InputsModel {
    InputsModel {
        texture: merged_texture(m.texture, texture, texture_dirty),
        tex_pal: merged_tex_pal(m.tex_pal, tex_pal, tex_pal_dirty),
        vert_ram: replaced_prefix(m.vert_ram, vert_ram),
        poly_ram: replaced_prefix(m.poly_ram, poly_ram),
        vert_ram_level: vert_ram.len() as u16,
        poly_ram_level: poly_ram.len() as u16,
    }
}

/// The live snapshot: exactly one exists per pipeline, mutated in place by
/// every submission, never reallocated.
pub struct RenderFrameInputs {
    texture: Vec<u8>,
    tex_pal: Vec<u8>,
    vert_ram: Vec<Vertex>,
    poly_ram: Vec<Polygon>,
    vert_ram_level: u16,
    poly_ram_level: u16,
}

impl View for RenderFrameInputs {
    type V = InputsModel;

    closed spec fn view(&self) -> InputsModel {
        InputsModel {
            texture: self.texture@,
            tex_pal: self.tex_pal@,
            vert_ram: self.vert_ram@,
            poly_ram: self.poly_ram@,
            vert_ram_level: self.vert_ram_level,
            poly_ram_level: self.poly_ram_level,
        }
    }
}

impl RenderFrameInputs {
    /// A zeroed snapshot: all memory cleared, both lists empty.
    pub fn new() -> (r: Self)
        ensures
            r@.wf(),
            r@.texture =~= Seq::new(TEXTURE_LEN as nat, |j: int| 0u8),
            r@.tex_pal =~= Seq::new(TEX_PAL_LEN as nat, |j: int| 0u8),
            forall|i: int| 0 <= i < VERT_RAM_CAP ==> r@.vert_ram[i] == (Vertex { raw: 0u64 }),
            forall|i: int| 0 <= i < POLY_RAM_CAP ==> r@.poly_ram[i] == (Polygon { raw: 0u64 }),
            r@.vert_ram_level == 0,
            r@.poly_ram_level == 0,
    {
        let texture: Vec<u8> = vec![0u8; TEXTURE_LEN];
        let tex_pal: Vec<u8> = vec![0u8; TEX_PAL_LEN];
        let vert_ram: Vec<Vertex> = vec![Vertex { raw: 0u64 }; VERT_RAM_CAP];
        let poly_ram: Vec<Polygon> = vec![Polygon { raw: 0u64 }; POLY_RAM_CAP];
        assert forall|j: int| 0 <= j < TEXTURE_LEN implies texture@[j] == 0u8 by {
            assert(cloned(0u8, texture@[j]));
        }
        assert forall|j: int| 0 <= j < TEX_PAL_LEN implies tex_pal@[j] == 0u8 by {
            assert(cloned(0u8, tex_pal@[j]));
        }
        assert forall|i: int| 0 <= i < VERT_RAM_CAP implies vert_ram@[i] == (Vertex {
            raw: 0u64,
        }) by {
            assert(cloned(Vertex { raw: 0u64 }, vert_ram@[i]));
        }
        assert forall|i: int| 0 <= i < POLY_RAM_CAP implies poly_ram@[i] == (Polygon {
            raw: 0u64,
        }) by {
            assert(cloned(Polygon { raw: 0u64 }, poly_ram@[i]));
        }
        RenderFrameInputs { texture, tex_pal, vert_ram, poly_ram, vert_ram_level: 0, poly_ram_level: 0 }
    }

    /// Replace the live snapshot with a new submission. Only texture and
    /// palette chunks selected by the dirty masks are copied; a clean chunk
    /// keeps every byte it had. Vertex and polygon lists are replaced in full
    /// up to their live counts.
    pub fn apply_submission(
        &mut self,
        texture: &Vec<u8>,
        tex_pal: &Vec<u8>,
        vert_ram: &Vec<Vertex>,
        poly_ram: &Vec<Polygon>,
        texture_dirty: u8,
        tex_pal_dirty: u8,
    )
        requires
            old(self)@.wf(),
            texture@.len() == TEXTURE_LEN,
            tex_pal@.len() == TEX_PAL_LEN,
            vert_ram@.len() <= VERT_RAM_CAP,
            poly_ram@.len() <= POLY_RAM_CAP,
        ensures
            final(self)@.wf(),
            final(self)@ == apply_submission_spec(
                old(self)@,
                texture@,
                tex_pal@,
                vert_ram@,
                poly_ram@,
                texture_dirty,
                tex_pal_dirty,
            ),
    {
        let mut k: usize = 0;
        while k < TEXTURE_LEN
            invariant
                old(self)@.wf(),
                texture@.len() == TEXTURE_LEN,
                self.texture@.len() == TEXTURE_LEN,
                k <= TEXTURE_LEN,
                forall|j: int| 0 <= j < k ==> self.texture@[j] == merged_texture(
                    old(self)@.texture,
                    texture@,
                    texture_dirty,
                )[j],
                forall|j: int| k <= j < TEXTURE_LEN ==> self.texture@[j] == old(self)@.texture[j],
                self.tex_pal@ == old(self)@.tex_pal,
                self.vert_ram@ == old(self)@.vert_ram,
                self.poly_ram@ == old(self)@.poly_ram,
                self.vert_ram_level == old(self)@.vert_ram_level,
                self.poly_ram_level == old(self)@.poly_ram_level,
            decreases TEXTURE_LEN - k,
        {
            let chunk: u8 = ((k as u32) >> 17) as u8;
            assert((k as u32) >> 17 < 4) by (bit_vector)
                requires
                    (k as u32) < 0x8_0000,
            ;
            if texture_dirty & (1u8 << chunk) != 0 {
                self.texture.set(k, texture[k]);
            }
            k = k + 1;
        }
        let mut k: usize = 0;
        while k < TEX_PAL_LEN
            invariant
                old(self)@.wf(),
                tex_pal@.len() == TEX_PAL_LEN,
                self.tex_pal@.len() == TEX_PAL_LEN,
                k <= TEX_PAL_LEN,
                forall|j: int| 0 <= j < TEXTURE_LEN ==> self.texture@[j] == merged_texture(
                    old(self)@.texture,
                    texture@,
                    texture_dirty,
                )[j],
                self.texture@.len() == TEXTURE_LEN,
                forall|j: int| 0 <= j < k ==> self.tex_pal@[j] == merged_tex_pal(
                    old(self)@.tex_pal,
                    tex_pal@,
                    tex_pal_dirty,
                )[j],
                forall|j: int| k <= j < TEX_PAL_LEN ==> self.tex_pal@[j] == old(self)@.tex_pal[j],
                self.vert_ram@ == old(self)@.vert_ram,
                self.poly_ram@ == old(self)@.poly_ram,
                self.vert_ram_level == old(self)@.vert_ram_level,
                self.poly_ram_level == old(self)@.poly_ram_level,
            decreases TEX_PAL_LEN - k,
        {
            let chunk: u8 = ((k as u32) >> 14) as u8;
            assert((k as u32) >> 14 < 6) by (bit_vector)
                requires
                    (k as u32) < 0x1_8000,
            ;
            if tex_pal_dirty & (1u8 << chunk) != 0 {
                self.tex_pal.set(k, tex_pal[k]);
            }
            k = k + 1;
        }
        let mut i: usize = 0;
        while i < vert_ram.len()
            invariant
                old(self)@.wf(),
                vert_ram@.len() <= VERT_RAM_CAP,
                self.vert_ram@.len() == VERT_RAM_CAP,
                i <= vert_ram@.len(),
                forall|j: int| 0 <= j < i ==> self.vert_ram@[j] == vert_ram@[j],
                forall|j: int| i <= j < VERT_RAM_CAP ==> self.vert_ram@[j] == old(
                    self,
                )@.vert_ram[j],
                self.texture@ == merged_texture(old(self)@.texture, texture@, texture_dirty),
                self.tex_pal@ == merged_tex_pal(old(self)@.tex_pal, tex_pal@, tex_pal_dirty),
                self.poly_ram@ == old(self)@.poly_ram,
            decreases vert_ram@.len() - i,
        {
            self.vert_ram.set(i, vert_ram[i]);
            i = i + 1;
        }
        let mut i: usize = 0;
        while i < poly_ram.len()
            invariant
                old(self)@.wf(),
                poly_ram@.len() <= POLY_RAM_CAP,
                self.poly_ram@.len() == POLY_RAM_CAP,
                i <= poly_ram@.len(),
                forall|j: int| 0 <= j < i ==> self.poly_ram@[j] == poly_ram@[j],
                forall|j: int| i <= j < POLY_RAM_CAP ==> self.poly_ram@[j] == old(
                    self,
                )@.poly_ram[j],
                self.texture@ == merged_texture(old(self)@.texture, texture@, texture_dirty),
                self.tex_pal@ == merged_tex_pal(old(self)@.tex_pal, tex_pal@, tex_pal_dirty),
                self.vert_ram@ == replaced_prefix(old(self)@.vert_ram, vert_ram@),
            decreases poly_ram@.len() - i,
        {
            self.poly_ram.set(i, poly_ram[i]);
            i = i + 1;
        }
        self.vert_ram_level = vert_ram.len() as u16;
        self.poly_ram_level = poly_ram.len() as u16;
        proof {
            assert(self.texture@ =~= merged_texture(old(self)@.texture, texture@, texture_dirty));
            assert(self.tex_pal@ =~= merged_tex_pal(old(self)@.tex_pal, tex_pal@, tex_pal_dirty));
            assert(self.vert_ram@ =~= replaced_prefix(old(self)@.vert_ram, vert_ram@));
            assert(self.poly_ram@ =~= replaced_prefix(old(self)@.poly_ram, poly_ram@));
            assert(self@ =~= apply_submission_spec(
                old(self)@,
                texture@,
                tex_pal@,
                vert_ram@,
                poly_ram@,
                texture_dirty,
                tex_pal_dirty,
            ));
        }
    }

    /// Live vertex count of the current snapshot.
    pub fn vert_ram_level(&self) -> (r: u16)
        ensures
            r == self@.vert_ram_level,
    {
        self.vert_ram_level
    }

    /// Live polygon count of the current snapshot.
    pub fn poly_ram_level(&self) -> (r: u16)
        ensures
            r == self@.poly_ram_level,
    {
        self.poly_ram_level
    }

    /// One byte of texture memory.
    pub fn texture_byte(&self, j: usize) -> (r: u8)
        requires
            self@.wf(),
            j < TEXTURE_LEN,
        ensures
            r == self@.texture[j as int],
    {
        self.texture[j]
    }

    /// One byte of texture-palette memory.
    pub fn tex_pal_byte(&self, j: usize) -> (r: u8)
        requires
            self@.wf(),
            j < TEX_PAL_LEN,
        ensures
            r == self@.tex_pal[j as int],
    {
        self.tex_pal[j]
    }

    /// One entry of the vertex list.
    pub fn vert(&self, i: usize) -> (r: Vertex)
        requires
            self@.wf(),
            i < VERT_RAM_CAP,
        ensures
            r == self@.vert_ram[i as int],
    {
        self.vert_ram[i]
    }

    /// One entry of the polygon list.
    pub fn poly(&self, i: usize) -> (r: Polygon)
        requires
            self@.wf(),
            i < POLY_RAM_CAP,
        ensures
            r == self@.poly_ram[i as int],
    {
        self.poly_ram[i]
    }
}

} // verus!
