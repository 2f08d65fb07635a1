use scanline_sync::frame::{SCREEN_HEIGHT, SCREEN_WIDTH};
use scanline_sync::inputs::{Polygon, Vertex, TEXTURE_CHUNK_LEN, TEXTURE_LEN, TEX_PAL_CHUNK_LEN, TEX_PAL_LEN};
use scanline_sync::pipeline::{Pipeline, RasterizerDecision, SCANLINE_SUBMITTED};

fn row_of(v: u32) -> Vec<u32> {
    vec![v; SCREEN_WIDTH]
}

fn frame_of(v: u32) -> Vec<u32> {
    vec![v; SCREEN_WIDTH * SCREEN_HEIGHT]
}

fn submit(p: &mut Pipeline, tex_byte: u8, tex_dirty: u8) {
    let texture = vec![tex_byte; TEXTURE_LEN];
    let tex_pal = vec![0u8; TEX_PAL_LEN];
    let verts: Vec<Vertex> = Vec::new();
    let polys: Vec<Polygon> = Vec::new();
    p.swap_buffers(&texture, &tex_pal, &verts, &polys, tex_dirty, 0);
}

#[test]
fn cursor_starts_idle() {
    let p = Pipeline::new();
    assert_eq!(p.cursor(), SCREEN_HEIGHT as u8);
    assert!(!p.stopped());
    assert_eq!(p.next_scanline(), 0);
}

#[test]
fn ordering_row_available_only_after_publish() {
    let mut p = Pipeline::new();
    submit(&mut p, 0, 0);
    assert_eq!(p.cursor(), SCANLINE_SUBMITTED);
    p.start_frame();
    // submission pending: nothing is readable
    assert!(p.try_read_scanline().is_none());
    assert_eq!(p.rasterizer_poll(), RasterizerDecision::Claimed);
    assert_eq!(p.cursor(), 0);
    // row 0 not yet published
    assert!(p.try_read_scanline().is_none());
    assert!(p.publish_row(0, &row_of(7)));
    let row = p.try_read_scanline().expect("row 0 was published");
    assert_eq!(row, row_of(7));
    // row 1 not yet published
    assert!(p.try_read_scanline().is_none());
}

#[test]
fn restartability_read_and_skip_equivalent() {
    let mut p = Pipeline::new();
    // the pipeline starts idle: a full (zeroed) frame is available
    p.start_frame();
    for _ in 0..SCREEN_HEIGHT {
        assert!(p.try_read_scanline().is_some());
    }
    assert_eq!(p.next_scanline(), SCREEN_HEIGHT as u8);
    let cursor_after_reads = p.cursor();
    p.start_frame();
    assert_eq!(p.next_scanline(), 0);
    for _ in 0..SCREEN_HEIGHT {
        p.skip_scanline();
    }
    assert_eq!(p.next_scanline(), SCREEN_HEIGHT as u8);
    assert_eq!(p.cursor(), cursor_after_reads);
    p.start_frame();
    assert_eq!(p.next_scanline(), 0);
    assert!(p.try_read_scanline().is_some());
}

#[test]
fn shutdown_while_submission_pending() {
    let mut p = Pipeline::new();
    submit(&mut p, 0, 0);
    p.stop();
    assert_eq!(p.rasterizer_poll(), RasterizerDecision::Exit);
    // the stopped flag wins even over a pending submission
    assert_eq!(p.cursor(), SCANLINE_SUBMITTED);
}

#[test]
fn shutdown_mid_frame() {
    let mut p = Pipeline::new();
    submit(&mut p, 0, 0);
    assert_eq!(p.rasterizer_poll(), RasterizerDecision::Claimed);
    assert!(p.publish_row(0, &row_of(1)));
    p.stop();
    assert_eq!(p.rasterizer_poll(), RasterizerDecision::Exit);
    assert_eq!(p.rasterizer_poll(), RasterizerDecision::Exit);
}

#[test]
fn rasterizer_parks_when_nothing_pending() {
    let mut p = Pipeline::new();
    assert_eq!(p.rasterizer_poll(), RasterizerDecision::Park);
}

#[test]
fn overwrite_on_submit_abandons_unfinished_frame() {
    let mut p = Pipeline::new();
    submit(&mut p, 0xAA, 0b1111);
    assert_eq!(p.rasterizer_poll(), RasterizerDecision::Claimed);
    p.start_frame();
    assert!(p.publish_row(0, &row_of(1)));
    assert!(p.publish_row(1, &row_of(2)));
    assert_eq!(p.try_read_scanline().unwrap(), row_of(1));
    // frame N+1 submitted before frame N finished rasterizing
    submit(&mut p, 0xBB, 0b0001);
    // the remaining rows of frame N never become readable
    assert!(p.try_read_scanline().is_none());
    // and frame N's own publishes are refused from now on
    assert!(!p.publish_row(2, &row_of(3)));
    assert!(p.try_read_scanline().is_none());
    // reads resume only once frame N+1 is claimed and publishes its rows
    assert_eq!(p.rasterizer_poll(), RasterizerDecision::Claimed);
    p.start_frame();
    assert!(p.try_read_scanline().is_none());
    assert!(p.publish_row(0, &row_of(9)));
    assert!(p.publish_row(1, &row_of(10)));
    assert_eq!(p.try_read_scanline().unwrap(), row_of(9));
    assert_eq!(p.try_read_scanline().unwrap(), row_of(10));
}

#[test]
fn dirty_chunk_isolation() {
    let mut p = Pipeline::new();
    // frame A: all four chunks dirty, pattern 0xAA
    submit(&mut p, 0xAA, 0b1111);
    // frame B: dirty bitmask selects only chunk 0, pattern 0xBB
    submit(&mut p, 0xBB, 0b0001);
    assert_eq!(p.texture_byte(0), 0xBB);
    assert_eq!(p.texture_byte(TEXTURE_CHUNK_LEN - 1), 0xBB);
    assert_eq!(p.texture_byte(TEXTURE_CHUNK_LEN), 0xAA);
    assert_eq!(p.texture_byte(2 * TEXTURE_CHUNK_LEN), 0xAA);
    assert_eq!(p.texture_byte(TEXTURE_LEN - 1), 0xAA);
    let mut j = 0usize;
    while j < TEXTURE_CHUNK_LEN {
        assert_eq!(p.texture_byte(j), 0xBB);
        j += 4093;
    }
    while j < TEXTURE_LEN {
        assert_eq!(p.texture_byte(j), 0xAA);
        j += 4093;
    }
}

#[test]
fn palette_chunks_and_lists_replaced() {
    let mut p = Pipeline::new();
    let texture = vec![0u8; TEXTURE_LEN];
    let tex_pal = vec![0xCCu8; TEX_PAL_LEN];
    let verts = vec![Vertex { raw: 5 }; 3];
    let polys = vec![Polygon { raw: 9 }; 2];
    // only palette chunk 1 dirty
    p.swap_buffers(&texture, &tex_pal, &verts, &polys, 0, 0b000010);
    assert_eq!(p.tex_pal_byte(TEX_PAL_CHUNK_LEN - 1), 0x00);
    assert_eq!(p.tex_pal_byte(TEX_PAL_CHUNK_LEN), 0xCC);
    assert_eq!(p.tex_pal_byte(2 * TEX_PAL_CHUNK_LEN - 1), 0xCC);
    assert_eq!(p.tex_pal_byte(2 * TEX_PAL_CHUNK_LEN), 0x00);
    assert_eq!(p.vert_ram_level(), 3);
    assert_eq!(p.poly_ram_level(), 2);
    assert_eq!(p.vert(0), Vertex { raw: 5 });
    assert_eq!(p.vert(2), Vertex { raw: 5 });
    assert_eq!(p.vert(3), Vertex { raw: 0 });
    assert_eq!(p.poly(1), Polygon { raw: 9 });
    assert_eq!(p.poly(2), Polygon { raw: 0 });
}

#[test]
fn run_frame_completes_whole_frame() {
    let mut p = Pipeline::new();
    submit(&mut p, 0, 0);
    assert_eq!(p.rasterizer_poll(), RasterizerDecision::Claimed);
    let frame = frame_of(3);
    assert!(p.run_frame(&frame));
    assert_eq!(p.cursor(), SCREEN_HEIGHT as u8);
    p.start_frame();
    for _ in 0..SCREEN_HEIGHT {
        assert_eq!(p.try_read_scanline().unwrap(), row_of(3));
    }
}

#[test]
fn run_frame_aborts_without_claim() {
    let mut p = Pipeline::new();
    // cursor is idle (not at row zero): the first publish fails silently
    let frame = frame_of(4);
    assert!(!p.run_frame(&frame));
    assert_eq!(p.cursor(), SCREEN_HEIGHT as u8);
}

#[test]
fn clean_mask_keeps_every_byte() {
    let mut p = Pipeline::new();
    submit(&mut p, 0xAA, 0b1111);
    // a submission with no dirty chunks changes no texture byte
    submit(&mut p, 0xBB, 0b0000);
    assert_eq!(p.texture_byte(0), 0xAA);
    assert_eq!(p.texture_byte(TEXTURE_LEN - 1), 0xAA);
}

#[test]
fn lists_at_full_capacity() {
    let mut p = Pipeline::new();
    let texture = vec![0u8; TEXTURE_LEN];
    let tex_pal = vec![0u8; TEX_PAL_LEN];
    let verts = vec![Vertex { raw: 11 }; 6144];
    let polys = vec![Polygon { raw: 22 }; 2048];
    p.swap_buffers(&texture, &tex_pal, &verts, &polys, 0, 0);
    assert_eq!(p.vert_ram_level(), 6144);
    assert_eq!(p.poly_ram_level(), 2048);
    assert_eq!(p.vert(6143), Vertex { raw: 11 });
    assert_eq!(p.poly(2047), Polygon { raw: 22 });
}
