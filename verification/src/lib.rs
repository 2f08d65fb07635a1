//! Timing-accurate rendering core of a hardware emulator.
//!
//! The library models the synchronization machinery that lets a real-time
//! timing thread consume 3D-rasterized scanlines row by row while a dedicated
//! rasterizer context produces them: a scanline lockstep pipeline gated by an
//! atomic-style cursor, a triple buffer for whole-frame handoff to a display
//! consumer, a control channel between the UI and the timing context, and the
//! renderer-backend selection rules around them.

pub mod backend;
pub mod control;
pub mod frame;
pub mod input;
pub mod inputs;
pub mod memview;
pub mod options;
pub mod pipeline;
pub mod presence;
pub mod session;
pub mod triple_buffer;
