//! A batched debug-text rendering core.
//!
//! Draw requests accumulate per frame into a shared vertex/index batch;
//! `update` pushes the batch into growable GPU-facing buffers and `render`
//! issues a single draw covering the whole batch, then clears it. Text is
//! anchored either in world space (projected through a camera) or in fixed
//! screen pixels. Glyph metrics come from an immutable bitmap-font catalog.
//!
//! Everything the core decides — glyph lookup, quad generation, cursor
//! advance, buffer growth, shader-variant selection, and the batch life
//! cycle — is specified and verified here over plain integer data. The
//! device-facing edge (buffer objects, texture sampling, program linking,
//! draw submission) lives outside this crate and consumes the values this
//! core produces.

pub mod font;
pub mod vertex;
pub mod batch;
pub mod buffer;
pub mod shader;
pub mod ndc;
pub mod renderer;
