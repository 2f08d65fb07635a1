//! The scanline lockstep pipeline: the synchronization engine between the
//! timing thread (producer of frame submissions, consumer of rasterized rows)
//! and a dedicated rasterizer thread (consumer of submissions, producer of
//! rows).
//!
//! The sole synchronization device is the scanline cursor, an atomic-style
//! integer with three zones: the [`SCANLINE_SUBMITTED`] sentinel (a new frame
//! was handed off, rasterization has not started), a running value `v` in
//! `[0, SCREEN_HEIGHT)` (rows `[0, v)` are safely readable), and
//! `SCREEN_HEIGHT` itself (the prior frame is fully drained). The timing
//! thread's operations and the rasterizer thread's operations are each exec
//! methods here; their contracts pin every transition to a spec-level model,
//! so that any interleaving of the two threads' steps is covered by induction
//! over [`pipeline_wf`].
//!
//! Waiting is asymmetric and stays outside this module: the timing thread
//! spins on [`Pipeline::try_read_scanline`] (sub-scanline waits), while the
//! rasterizer thread parks between frames when [`Pipeline::rasterizer_poll`]
//! answers [`RasterizerDecision::Park`].

use vstd::prelude::*;

use crate::frame::{SCREEN_HEIGHT, SCREEN_WIDTH};
use crate::inputs::{
    apply_submission_spec, InputsModel, Polygon, RenderFrameInputs, Vertex, POLY_RAM_CAP,
    TEXTURE_LEN, TEX_PAL_LEN, VERT_RAM_CAP,
};

verus! {

/// Cursor sentinel: a new frame has been handed off and rasterization of it
/// has not started yet.
pub const SCANLINE_SUBMITTED: u8 = 255;

/// Mathematical model of the pipeline's shared state plus the timing thread's
/// local read counter.
#[verifier::ext_equal]
pub struct PipelineModel {
    /// The scanline cursor: [`SCANLINE_SUBMITTED`], or a value in
    /// `[0, SCREEN_HEIGHT]`.
    pub cursor: u8,
    /// Once set, the rasterizer terminates at its next wake instead of
    /// starting or continuing a frame.
    pub stopped: bool,
    /// The timing thread's local next-row counter.
    pub next_scanline: u8,
    /// The live frame-inputs snapshot.
    pub inputs: InputsModel,
    /// The scanline output buffer, flat: row `i` occupies pixels
    /// `[i * SCREEN_WIDTH, (i + 1) * SCREEN_WIDTH)`.
    pub rows: Seq<u32>,
    /// How many submissions have been made over the pipeline's lifetime.
    pub frames_submitted: nat,
    /// Which submission the rasterizer last claimed.
    pub claimed_frame: nat,
    /// For each row, which submission its current pixels were published under.
    pub row_frame: Seq<nat>,
}

/// The invariant every pipeline state keeps: the cursor stays in its three
/// zones, and whenever the cursor is not the sentinel, every row below it was
/// published under the most recent submission — no row of an abandoned frame
/// is ever readable.
pub open spec fn pipeline_wf(m: PipelineModel) -> bool {
    &&& m.cursor == SCANLINE_SUBMITTED || m.cursor <= SCREEN_HEIGHT as u8
    &&& m.next_scanline <= SCREEN_HEIGHT as u8
    &&& m.inputs.wf()
    &&& m.rows.len() == SCREEN_HEIGHT * SCREEN_WIDTH
    &&& m.row_frame.len() == SCREEN_HEIGHT
    &&& (m.cursor != SCANLINE_SUBMITTED ==> {
        &&& m.claimed_frame == m.frames_submitted
        &&& forall|i: int| 0 <= i < m.cursor ==> m.row_frame[i] == m.frames_submitted
    })
}

/// Whether row `i` may be handed to the timing thread: the cursor is past it
/// and no submission is pending.
pub open spec fn scanline_readable(m: PipelineModel, i: u8) -> bool {
    m.cursor != SCANLINE_SUBMITTED && i < m.cursor
}

/// Row `i` of the scanline buffer.
pub open spec fn row_seq(m: PipelineModel, i: u8) -> Seq<u32> {
    m.rows.subrange(i as int * SCREEN_WIDTH as int, (i as int + 1) * SCREEN_WIDTH as int)
}

/// `start_frame` resets only the timing thread's local counter; the cursor and
/// the shared buffers are untouched, so the 3D content shown for the frame is
/// still the previous submission's — the one-frame latency real hardware has.
pub open spec fn start_frame_spec(m: PipelineModel) -> PipelineModel {
    PipelineModel { next_scanline: 0u8, ..m }
}

/// `swap_buffers` merges the submission into the live snapshot, then sets the
/// cursor to the sentinel, unconditionally invalidating any rasterization
/// still in progress for the prior frame (overwrite-on-submit).
pub open spec fn swap_buffers_spec(
    m: PipelineModel,
    texture: Seq<u8>,
    tex_pal: Seq<u8>,
    vert_ram: Seq<Vertex>,
    poly_ram: Seq<Polygon>,
    texture_dirty: u8,
    tex_pal_dirty: u8,
) -> PipelineModel {
    PipelineModel {
        inputs: apply_submission_spec(
            m.inputs,
            texture,
            tex_pal,
            vert_ram,
            poly_ram,
            texture_dirty,
            tex_pal_dirty,
        ),
        cursor: SCANLINE_SUBMITTED,
        frames_submitted: m.frames_submitted + 1,
        ..m
    }
}

/// One poll of the timing thread for its next row: if the row is readable the
/// local counter advances, otherwise nothing changes (the caller spins).
pub open spec fn try_read_spec(m: PipelineModel) -> PipelineModel {
    if scanline_readable(m, m.next_scanline) {
        PipelineModel { next_scanline: (m.next_scanline + 1) as u8, ..m }
    } else {
        m
    }
}

/// `skip_scanline` advances the local counter without reading.
pub open spec fn skip_scanline_spec(m: PipelineModel) -> PipelineModel {
    PipelineModel { next_scanline: (m.next_scanline + 1) as u8, ..m }
}

/// `stop` only raises the stopped flag; the rasterizer observes it at its next
/// wake and exits.
pub open spec fn stop_spec(m: PipelineModel) -> PipelineModel {
    PipelineModel { stopped: true, ..m }
}

/// What the rasterizer thread decides at each wake.
#[derive(Clone, Copy, PartialEq, Eq, Structural, Debug)]
pub enum RasterizerDecision {
    /// The stopped flag is set: terminate.
    Exit,
    /// A pending submission was claimed: rasterize the frame.
    Claimed,
    /// Nothing to do: park until the next wake.
    Park,
}

/// The decision the rasterizer takes on a given state: the stopped flag wins,
/// then a pending submission is claimed, otherwise it parks.
pub open spec fn rasterizer_poll_decision(m: PipelineModel) -> RasterizerDecision {
    if m.stopped {
        RasterizerDecision::Exit
    } else if m.cursor == SCANLINE_SUBMITTED {
        RasterizerDecision::Claimed
    } else {
        RasterizerDecision::Park
    }
}

/// State change of one rasterizer wake: claiming a submission moves the cursor
/// from the sentinel to row zero and latches the submission being worked on.
pub open spec fn rasterizer_poll_spec(m: PipelineModel) -> PipelineModel {
    if !m.stopped && m.cursor == SCANLINE_SUBMITTED {
        PipelineModel { cursor: 0u8, claimed_frame: m.frames_submitted, ..m }
    } else {
        m
    }
}

/// The scanline buffer after row `i` is overwritten with `row`.
pub open spec fn write_row(rows: Seq<u32>, i: u8, row: Seq<u32>) -> Seq<u32> {
    Seq::new(rows.len(), |k: int| if i as int * SCREEN_WIDTH as int <= k < (i as int + 1)
        * SCREEN_WIDTH as int {
        row[k - i as int * SCREEN_WIDTH as int]
    } else {
        rows[k]
    })
}

/// Whether a publish of row `i` is accepted: the cursor must still equal `i`.
/// A submission in between moved the cursor to the sentinel, so the publish
/// fails and the rasterizer abandons the superseded frame.
pub open spec fn publish_accepted(m: PipelineModel, i: u8) -> bool {
    m.cursor == i
}

/// One publish step of the rasterizer: row `i` is written into the buffer,
/// then the cursor advances from `i` to `i + 1` exactly when it still is `i`.
pub open spec fn publish_row_spec(m: PipelineModel, i: u8, row: Seq<u32>) -> PipelineModel {
    let written = PipelineModel {
        rows: write_row(m.rows, i, row),
        row_frame: m.row_frame.update(i as int, m.claimed_frame),
        ..m
    };
    if publish_accepted(m, i) {
        PipelineModel { cursor: (i + 1) as u8, ..written }
    } else {
        written
    }
}

/// The pipeline's shared state together with the timing thread's local
/// counter. Allocated once when a threaded backend starts; the snapshot and
/// the scanline buffer are mutated in place for its entire lifetime.
pub struct Pipeline {
    cursor: u8,
    stopped: bool,
    next_scanline: u8,
    inputs: RenderFrameInputs,
    scanline_buffer: Vec<u32>,
    frames_submitted: Ghost<nat>,
    claimed_frame: Ghost<nat>,
    row_frame: Ghost<Seq<nat>>,
}

impl View for Pipeline {
    type V = PipelineModel;

    closed spec fn view(&self) -> PipelineModel {
        PipelineModel {
            cursor: self.cursor,
            stopped: self.stopped,
            next_scanline: self.next_scanline,
            inputs: self.inputs@,
            rows: self.scanline_buffer@,
            frames_submitted: self.frames_submitted@,
            claimed_frame: self.claimed_frame@,
            row_frame: self.row_frame@,
        }
    }
}

impl Pipeline {
    /// A fresh pipeline: cursor at `SCREEN_HEIGHT` (prior frame drained, i.e.
    /// idle), nothing submitted, nothing stopped, all memory zeroed.
    pub fn new() -> (p: Pipeline)
        ensures
            pipeline_wf(p@),
            p@.cursor == SCREEN_HEIGHT as u8,
            !p@.stopped,
            p@.next_scanline == 0,
            p@.frames_submitted == 0,
            forall|k: int| 0 <= k < SCREEN_HEIGHT * SCREEN_WIDTH ==> p@.rows[k] == 0u32,
            p@.inputs.wf(),
    {
        let scanline_buffer: Vec<u32> = vec![0u32; SCREEN_HEIGHT * SCREEN_WIDTH];
        assert forall|k: int| 0 <= k < SCREEN_HEIGHT * SCREEN_WIDTH implies scanline_buffer@[k]
            == 0u32 by {
            assert(cloned(0u32, scanline_buffer@[k]));
        }
        Pipeline {
            cursor: SCREEN_HEIGHT as u8,
            stopped: false,
            next_scanline: 0,
            inputs: RenderFrameInputs::new(),
            scanline_buffer,
            frames_submitted: Ghost(0nat),
            claimed_frame: Ghost(0nat),
            row_frame: Ghost(Seq::new(SCREEN_HEIGHT as nat, |i: int| 0nat)),
        }
    }

    /// Timing thread: begin consuming a frame by resetting the local read
    /// counter, regardless of how many rows were read or skipped before.
    pub fn start_frame(&mut self)
        requires
            pipeline_wf(old(self)@),
        ensures
            pipeline_wf(final(self)@),
            final(self)@ == start_frame_spec(old(self)@),
            final(self)@.next_scanline == 0,
    {
        self.next_scanline = 0;
        proof {
            assert(self@ =~= start_frame_spec(old(self)@));
        }
    }

    /// Timing thread: hand a new frame to the rasterizer. Only dirty chunks of
    /// texture and palette memory are copied, the vertex and polygon lists are
    /// replaced in full, and the cursor is set to the sentinel — which
    /// unconditionally abandons whatever the rasterizer was still publishing
    /// for the previous submission. The caller then wakes the rasterizer.
    pub fn swap_buffers(
        &mut self,
        texture: &Vec<u8>,
        tex_pal: &Vec<u8>,
        vert_ram: &Vec<Vertex>,
        poly_ram: &Vec<Polygon>,
        texture_dirty: u8,
        tex_pal_dirty: u8,
    )
        requires
            pipeline_wf(old(self)@),
            texture@.len() == TEXTURE_LEN,
            tex_pal@.len() == TEX_PAL_LEN,
            vert_ram@.len() <= VERT_RAM_CAP,
            poly_ram@.len() <= POLY_RAM_CAP,
        ensures
            pipeline_wf(final(self)@),
            final(self)@ == swap_buffers_spec(
                old(self)@,
                texture@,
                tex_pal@,
                vert_ram@,
                poly_ram@,
                texture_dirty,
                tex_pal_dirty,
            ),
            final(self)@.cursor == SCANLINE_SUBMITTED,
    {
        self.inputs.apply_submission(
            texture,
            tex_pal,
            vert_ram,
            poly_ram,
            texture_dirty,
            tex_pal_dirty,
        );
        self.cursor = SCANLINE_SUBMITTED;
        proof {
            self.frames_submitted@ = self.frames_submitted@ + 1;
        }
        proof {
            assert(self@ =~= swap_buffers_spec(
                old(self)@,
                texture@,
                tex_pal@,
                vert_ram@,
                poly_ram@,
                texture_dirty,
                tex_pal_dirty,
            ));
        }
    }

    /// Timing thread: one poll for the next row. Returns the row's pixels
    /// exactly when the rasterizer has published past the local counter and no
    /// submission is pending; otherwise returns nothing and the caller spins.
    /// A returned row always belongs to the most recent submission.
    pub fn try_read_scanline(&mut self) -> (r: Option<Vec<u32>>)
        requires
            pipeline_wf(old(self)@),
        ensures
            pipeline_wf(final(self)@),
            final(self)@ == try_read_spec(old(self)@),
            r is Some <==> scanline_readable(old(self)@, old(self)@.next_scanline),
            r is Some ==> old(self)@.cursor != SCANLINE_SUBMITTED && old(self)@.next_scanline
                < old(self)@.cursor,
            r is Some ==> r->Some_0@ == row_seq(old(self)@, old(self)@.next_scanline),
            r is Some ==> old(self)@.row_frame[old(self)@.next_scanline as int] == old(
                self,
            )@.frames_submitted,
    {
        let c: u8 = self.cursor;
        if c != SCANLINE_SUBMITTED && self.next_scanline < c {
            let i: usize = self.next_scanline as usize;
            let base: usize = i * SCREEN_WIDTH;
            let mut row: Vec<u32> = Vec::new();
            let mut j: usize = 0;
            while j < SCREEN_WIDTH
                invariant
                    pipeline_wf(self@),
                    i < SCREEN_HEIGHT,
                    base == i * SCREEN_WIDTH,
                    j <= SCREEN_WIDTH,
                    row@.len() == j,
                    forall|k: int| 0 <= k < j ==> row@[k] == self@.rows[base + k],
                decreases SCREEN_WIDTH - j,
            {
                assert(base + j < SCREEN_HEIGHT * SCREEN_WIDTH) by (nonlinear_arith)
                    requires
                        base == i * SCREEN_WIDTH,
                        i < SCREEN_HEIGHT,
                        j < SCREEN_WIDTH,
                ;
                row.push(self.scanline_buffer[base + j]);
                j = j + 1;
            }
            self.next_scanline = self.next_scanline + 1;
            proof {
                assert(self@ =~= try_read_spec(old(self)@));
                assert(row@ =~= row_seq(old(self)@, old(self)@.next_scanline));
            }
            Some(row)
        } else {
            proof {
                assert(self@ =~= try_read_spec(old(self)@));
            }
            None
        }
    }

    /// Timing thread: advance past a row without reading it, used when the 2D
    /// compositor determined the 3D layer is invisible on that row. The
    /// rasterizer keeps producing independently.
    pub fn skip_scanline(&mut self)
        requires
            pipeline_wf(old(self)@),
            old(self)@.next_scanline < SCREEN_HEIGHT as u8,
        ensures
            pipeline_wf(final(self)@),
            final(self)@ == skip_scanline_spec(old(self)@),
    {
        self.next_scanline = self.next_scanline + 1;
        proof {
            assert(self@ =~= skip_scanline_spec(old(self)@));
        }
    }

    /// Control side: raise the stopped flag. The caller then wakes the
    /// rasterizer thread so it observes the flag, and joins it.
    pub fn stop(&mut self)
        requires
            pipeline_wf(old(self)@),
        ensures
            pipeline_wf(final(self)@),
            final(self)@ == stop_spec(old(self)@),
            final(self)@.stopped,
    {
        self.stopped = true;
        proof {
            assert(self@ =~= stop_spec(old(self)@));
        }
    }

    /// Rasterizer thread: one wake. Exits if stopped, claims a pending
    /// submission by moving the cursor from the sentinel to row zero, or asks
    /// to park.
    pub fn rasterizer_poll(&mut self) -> (d: RasterizerDecision)
        requires
            pipeline_wf(old(self)@),
        ensures
            pipeline_wf(final(self)@),
            d == rasterizer_poll_decision(old(self)@),
            final(self)@ == rasterizer_poll_spec(old(self)@),
            old(self)@.stopped ==> d == RasterizerDecision::Exit && final(self)@ == old(self)@,
    {
        if self.stopped {
            proof {
                assert(self@ =~= rasterizer_poll_spec(old(self)@));
            }
            RasterizerDecision::Exit
        } else if self.cursor == SCANLINE_SUBMITTED {
            self.cursor = 0;
            proof {
                self.claimed_frame@ = self.frames_submitted@;
            }
            proof {
                assert(self@ =~= rasterizer_poll_spec(old(self)@));
            }
            RasterizerDecision::Claimed
        } else {
            proof {
                assert(self@ =~= rasterizer_poll_spec(old(self)@));
            }
            RasterizerDecision::Park
        }
    }

    /// The cursor's current value.
    pub fn cursor(&self) -> (r: u8)
        ensures
            r == self@.cursor,
    {
        self.cursor
    }

    /// Whether the stopped flag is raised.
    pub fn stopped(&self) -> (r: bool)
        ensures
            r == self@.stopped,
    {
        self.stopped
    }

    /// The timing thread's local next-row counter.
    pub fn next_scanline(&self) -> (r: u8)
        ensures
            r == self@.next_scanline,
    {
        self.next_scanline
    }

    /// One byte of the live snapshot's texture memory (the rasterizer reads
    /// these while it owns the claimed frame).
    pub fn texture_byte(&self, j: usize) -> (r: u8)
        requires
            pipeline_wf(self@),
            j < TEXTURE_LEN,
        ensures
            r == self@.inputs.texture[j as int],
    {
        self.inputs.texture_byte(j)
    }

    /// One byte of the live snapshot's palette memory.
    pub fn tex_pal_byte(&self, j: usize) -> (r: u8)
        requires
            pipeline_wf(self@),
            j < TEX_PAL_LEN,
        ensures
            r == self@.inputs.tex_pal[j as int],
    {
        self.inputs.tex_pal_byte(j)
    }

    /// One entry of the live snapshot's vertex list.
    pub fn vert(&self, i: usize) -> (r: Vertex)
        requires
            pipeline_wf(self@),
            i < VERT_RAM_CAP,
        ensures
            r == self@.inputs.vert_ram[i as int],
    {
        self.inputs.vert(i)
    }

    /// One entry of the live snapshot's polygon list.
    pub fn poly(&self, i: usize) -> (r: Polygon)
        requires
            pipeline_wf(self@),
            i < POLY_RAM_CAP,
        ensures
            r == self@.inputs.poly_ram[i as int],
    {
        self.inputs.poly(i)
    }

    /// The live snapshot's vertex count.
    pub fn vert_ram_level(&self) -> (r: u16)
        ensures
            r == self@.inputs.vert_ram_level,
    {
        self.inputs.vert_ram_level()
    }

    /// The live snapshot's polygon count.
    pub fn poly_ram_level(&self) -> (r: u16)
        ensures
            r == self@.inputs.poly_ram_level,
    {
        self.inputs.poly_ram_level()
    }

    /// Rasterizer thread: write row `i`'s pixels into the scanline buffer,
    /// then publish it by advancing the cursor from `i` to `i + 1`. The
    /// publish is accepted exactly when the cursor still equals `i`; if a new
    /// submission reset it in between, the row is written but never exposed,
    /// and the caller abandons the rest of the frame.
    pub fn publish_row(&mut self, i: u8, row: &Vec<u32>) -> (ok: bool)
        requires
            pipeline_wf(old(self)@),
            i < SCREEN_HEIGHT as u8,
            row@.len() == SCREEN_WIDTH,
        ensures
            pipeline_wf(final(self)@),
            ok <==> publish_accepted(old(self)@, i),
            final(self)@ == publish_row_spec(old(self)@, i, row@),
            ok ==> final(self)@.cursor == i + 1,
    {
        let base: usize = (i as usize) * SCREEN_WIDTH;
        assert(base + SCREEN_WIDTH <= SCREEN_HEIGHT * SCREEN_WIDTH) by (nonlinear_arith)
            requires
                base == (i as usize) * SCREEN_WIDTH,
                i < SCREEN_HEIGHT,
        ;
        let mut j: usize = 0;
        while j < SCREEN_WIDTH
            invariant
                base == (i as usize) * SCREEN_WIDTH,
                base + SCREEN_WIDTH <= SCREEN_HEIGHT * SCREEN_WIDTH,
                i < SCREEN_HEIGHT as u8,
                row@.len() == SCREEN_WIDTH,
                j <= SCREEN_WIDTH,
                self.scanline_buffer@.len() == SCREEN_HEIGHT * SCREEN_WIDTH,
                forall|k: int| base <= k < base + j ==> self.scanline_buffer@[k] == row@[k - base],
                forall|k: int| 0 <= k < self.scanline_buffer@.len() && !(base <= k < base + j)
                    ==> self.scanline_buffer@[k] == old(self)@.rows[k],
                self.cursor == old(self)@.cursor,
                self.stopped == old(self)@.stopped,
                self.next_scanline == old(self)@.next_scanline,
                self.inputs@ == old(self)@.inputs,
                self.frames_submitted@ == old(self)@.frames_submitted,
                self.claimed_frame@ == old(self)@.claimed_frame,
                self.row_frame@ == old(self)@.row_frame,
            decreases SCREEN_WIDTH - j,
        {
            self.scanline_buffer.set(base + j, row[j]);
            j = j + 1;
        }
        proof {
            self.row_frame@ = self.row_frame@.update(i as int, self.claimed_frame@);
        }
        if self.cursor == i {
            self.cursor = i + 1;
            proof {
                assert(self.scanline_buffer@ =~= write_row(old(self)@.rows, i, row@));
                assert(self@ =~= publish_row_spec(old(self)@, i, row@));
            }
            true
        } else {
            proof {
                assert(self.scanline_buffer@ =~= write_row(old(self)@.rows, i, row@));
                assert(self@ =~= publish_row_spec(old(self)@, i, row@));
            }
            false
        }
    }

    /// Rasterizer thread: process one claimed frame, publishing every row in
    /// strictly increasing order. `rows` is the frame's rasterized output,
    /// flat like the scanline buffer. Rasterization runs to completion exactly
    /// when the frame was claimed and no new submission intervened — here,
    /// within one sequential call, exactly when the cursor is at row zero;
    /// otherwise the first publish fails and the frame is abandoned silently.
    pub fn run_frame(&mut self, rows: &Vec<u32>) -> (completed: bool)
        requires
            pipeline_wf(old(self)@),
            rows@.len() == SCREEN_HEIGHT * SCREEN_WIDTH,
        ensures
            pipeline_wf(final(self)@),
            completed <==> old(self)@.cursor == 0,
            completed ==> final(self)@ == (PipelineModel {
                cursor: SCREEN_HEIGHT as u8,
                rows: rows@,
                row_frame: Seq::new(SCREEN_HEIGHT as nat, |k: int| old(self)@.frames_submitted),
                ..old(self)@
            }),
            !completed ==> final(self)@ == publish_row_spec(
                old(self)@,
                0,
                rows@.subrange(0, SCREEN_WIDTH as int),
            ),
    {
        let row0 = copy_row(rows, 0);
        let first_ok = self.publish_row(0, &row0);
        if !first_ok {
            return false;
        }
        let mut i: u8 = 1;
        while i < SCREEN_HEIGHT as u8
            invariant
                pipeline_wf(self@),
                rows@.len() == SCREEN_HEIGHT * SCREEN_WIDTH,
                1 <= i <= SCREEN_HEIGHT as u8,
                old(self)@.cursor == 0,
                pipeline_wf(old(self)@),
                self@.cursor == i,
                self@.stopped == old(self)@.stopped,
                self@.next_scanline == old(self)@.next_scanline,
                self@.inputs == old(self)@.inputs,
                self@.frames_submitted == old(self)@.frames_submitted,
                self@.claimed_frame == old(self)@.claimed_frame,
                self@.claimed_frame == old(self)@.frames_submitted,
                self@.rows.len() == SCREEN_HEIGHT * SCREEN_WIDTH,
                self@.row_frame.len() == SCREEN_HEIGHT,
                forall|k: int| 0 <= k < i as int * SCREEN_WIDTH as int ==> self@.rows[k]
                    == rows@[k],
                forall|k: int| i as int * SCREEN_WIDTH as int <= k < SCREEN_HEIGHT * SCREEN_WIDTH
                    ==> self@.rows[k] == old(self)@.rows[k],
                forall|k: int| 0 <= k < i ==> self@.row_frame[k] == old(self)@.frames_submitted,
                forall|k: int| i <= k < SCREEN_HEIGHT ==> self@.row_frame[k] == old(
                    self,
                )@.row_frame[k],
            decreases SCREEN_HEIGHT as u8 - i,
        {
            let row = copy_row(rows, i);
            let ok = self.publish_row(i, &row);
            assert(ok);
            i = i + 1;
        }
        proof {
            assert(self@.rows =~= rows@);
            assert(self@.row_frame =~= Seq::new(
                SCREEN_HEIGHT as nat,
                |k: int| old(self)@.frames_submitted,
            ));
            assert(self@ =~= (PipelineModel {
                cursor: SCREEN_HEIGHT as u8,
                rows: rows@,
                row_frame: Seq::new(SCREEN_HEIGHT as nat, |k: int| old(self)@.frames_submitted),
                ..old(self)@
            }));
        }
        true
    }
}

/// The state after `n` consecutive timing-thread read polls.
pub open spec fn try_read_n(m: PipelineModel, n: nat) -> PipelineModel
    decreases n,
{
    if n == 0 {
        m
    } else {
        try_read_spec(try_read_n(m, (n - 1) as nat))
    }
}

/// The state after `n` consecutive `skip_scanline` steps.
pub open spec fn skip_n(m: PipelineModel, n: nat) -> PipelineModel
    decreases n,
{
    if n == 0 {
        m
    } else {
        skip_scanline_spec(skip_n(m, (n - 1) as nat))
    }
}

/// With a fully drained frame available, `n` read polls advance the local
/// counter by `n` and change nothing else.
proof fn lemma_try_read_n_shape(m: PipelineModel, n: nat)
    requires
        pipeline_wf(m),
        m.cursor == SCREEN_HEIGHT as u8,
        m.next_scanline + n <= SCREEN_HEIGHT,
    ensures
        try_read_n(m, n) == (PipelineModel {
            next_scanline: (m.next_scanline + n) as u8,
            ..m
        }),
    decreases n,
{
    if n == 0 {
        assert(try_read_n(m, n) =~= (PipelineModel {
            next_scanline: (m.next_scanline + n) as u8,
            ..m
        }));
    } else {
        lemma_try_read_n_shape(m, (n - 1) as nat);
        assert(try_read_n(m, n) =~= (PipelineModel {
            next_scanline: (m.next_scanline + n) as u8,
            ..m
        }));
    }
}

/// `n` skips advance the local counter by `n` and change nothing else.
proof fn lemma_skip_n_shape(m: PipelineModel, n: nat)
    requires
        m.next_scanline + n <= SCREEN_HEIGHT,
    ensures
        skip_n(m, n) == (PipelineModel { next_scanline: (m.next_scanline + n) as u8, ..m }),
    decreases n,
{
    if n == 0 {
        assert(skip_n(m, n) =~= (PipelineModel {
            next_scanline: (m.next_scanline + n) as u8,
            ..m
        }));
    } else {
        lemma_skip_n_shape(m, (n - 1) as nat);
        assert(skip_n(m, n) =~= (PipelineModel {
            next_scanline: (m.next_scanline + n) as u8,
            ..m
        }));
    }
}

/// Restartability. From a frame fully available for reading, reading it in
/// full and skipping it entirely leave the pipeline in the same state, and
/// `start_frame` afterwards restores exactly the state `start_frame` would
/// give from the starting state: the local read counter returns to zero no
/// matter how the previous frame was consumed.
pub proof fn lemma_restartability(m: PipelineModel)
    requires
        pipeline_wf(m),
        m.cursor == SCREEN_HEIGHT as u8,
        m.next_scanline == 0,
    ensures
        try_read_n(m, SCREEN_HEIGHT as nat) == skip_n(m, SCREEN_HEIGHT as nat),
        start_frame_spec(try_read_n(m, SCREEN_HEIGHT as nat)) == start_frame_spec(m),
        start_frame_spec(skip_n(m, SCREEN_HEIGHT as nat)) == start_frame_spec(m),
{
    lemma_try_read_n_shape(m, SCREEN_HEIGHT as nat);
    lemma_skip_n_shape(m, SCREEN_HEIGHT as nat);
    assert(start_frame_spec(try_read_n(m, SCREEN_HEIGHT as nat)) =~= start_frame_spec(m));
    assert(start_frame_spec(skip_n(m, SCREEN_HEIGHT as nat)) =~= start_frame_spec(m));
}

/// Shutdown safety. Whatever the pipeline is doing — a submission pending, a
/// frame mid-rasterization — after `stop` the rasterizer's very next wake
/// decides to exit and changes nothing, so the joining caller never deadlocks
/// on further progress.
pub proof fn lemma_shutdown_safety(m: PipelineModel)
    requires
        pipeline_wf(m),
    ensures
        stop_spec(m).stopped,
        rasterizer_poll_decision(stop_spec(m)) == RasterizerDecision::Exit,
        rasterizer_poll_spec(stop_spec(m)) == stop_spec(m),
{
}

/// Overwrite-on-submit. A new submission makes every row unreadable at once
/// and refuses every publish of the superseded frame, so no row of an
/// abandoned frame is ever delivered; reads resume only after the rasterizer
/// claims the new submission and publishes its rows, which are then marked
/// with the new submission.
pub proof fn lemma_overwrite_on_submit(
    m: PipelineModel,
    texture: Seq<u8>,
    tex_pal: Seq<u8>,
    vert_ram: Seq<Vertex>,
    poly_ram: Seq<Polygon>,
    texture_dirty: u8,
    tex_pal_dirty: u8,
)
    requires
        pipeline_wf(m),
        texture.len() == TEXTURE_LEN,
        tex_pal.len() == TEX_PAL_LEN,
        vert_ram.len() <= VERT_RAM_CAP,
        poly_ram.len() <= POLY_RAM_CAP,
    ensures
        pipeline_wf(
            swap_buffers_spec(
                m,
                texture,
                tex_pal,
                vert_ram,
                poly_ram,
                texture_dirty,
                tex_pal_dirty,
            ),
        ),
        forall|j: u8|
            !scanline_readable(
                swap_buffers_spec(
                    m,
                    texture,
                    tex_pal,
                    vert_ram,
                    poly_ram,
                    texture_dirty,
                    tex_pal_dirty,
                ),
                j,
            ),
        forall|i: u8|
            i < SCREEN_HEIGHT as u8 ==> !publish_accepted(
                swap_buffers_spec(
                    m,
                    texture,
                    tex_pal,
                    vert_ram,
                    poly_ram,
                    texture_dirty,
                    tex_pal_dirty,
                ),
                i,
            ),
        !m.stopped ==> rasterizer_poll_spec(
            swap_buffers_spec(
                m,
                texture,
                tex_pal,
                vert_ram,
                poly_ram,
                texture_dirty,
                tex_pal_dirty,
            ),
        ).claimed_frame == m.frames_submitted + 1,
{
}

/// Within a frame's lifetime the cursor never goes backwards: a publish can
/// only advance it, and the timing-thread operations leave it alone. Only an
/// explicit new submission resets it (to the sentinel).
pub proof fn lemma_cursor_monotonic(m: PipelineModel, i: u8, row: Seq<u32>)
    requires
        pipeline_wf(m),
        m.cursor != SCANLINE_SUBMITTED,
    ensures
        publish_row_spec(m, i, row).cursor >= m.cursor,
        try_read_spec(m).cursor == m.cursor,
        skip_scanline_spec(m).cursor == m.cursor,
        stop_spec(m).cursor == m.cursor,
        start_frame_spec(m).cursor == m.cursor,
{
}

/// Copy row `i` out of a flat frame buffer.
fn copy_row(rows: &Vec<u32>, i: u8) -> (r: Vec<u32>)
    requires
        rows@.len() == SCREEN_HEIGHT * SCREEN_WIDTH,
        i < SCREEN_HEIGHT as u8,
    ensures
        r@.len() == SCREEN_WIDTH,
        r@ == rows@.subrange(i as int * SCREEN_WIDTH as int, (i as int + 1) * SCREEN_WIDTH as int),
{
    let base: usize = (i as usize) * SCREEN_WIDTH;
    assert(base + SCREEN_WIDTH <= SCREEN_HEIGHT * SCREEN_WIDTH) by (nonlinear_arith)
        requires
            base == (i as usize) * SCREEN_WIDTH,
            i < SCREEN_HEIGHT,
    ;
    let mut r: Vec<u32> = Vec::new();
    let mut j: usize = 0;
    while j < SCREEN_WIDTH
        invariant
            base + SCREEN_WIDTH <= SCREEN_HEIGHT * SCREEN_WIDTH,
            rows@.len() == SCREEN_HEIGHT * SCREEN_WIDTH,
            j <= SCREEN_WIDTH,
            r@.len() == j,
            forall|k: int| 0 <= k < j ==> r@[k] == rows@[base + k],
        decreases SCREEN_WIDTH - j,
    {
        r.push(rows[base + j]);
        j = j + 1;
    }
    proof {
        assert(r@ =~= rows@.subrange(
            i as int * SCREEN_WIDTH as int,
            (i as int + 1) * SCREEN_WIDTH as int,
        ));
    }
    r
}

} // verus!
