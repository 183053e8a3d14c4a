//! Canvas engine for an interactive document-page overlay.
//!
//! A reconstructed page is shown as positioned, styled text fragments that the
//! user can pan, zoom, search, click to copy, and drag to reposition.  This
//! crate holds the coordinate transforms, the text layout model, the item
//! model, the search matcher, the interaction rules and the per-frame paint
//! plan, all stated over exact fixed-point arithmetic:
//!
//! * document coordinates are kept in milli-units (one thousandth of a
//!   document unit, `_mu`),
//! * screen coordinates in micro-pixels (one millionth of a pixel, `_upx`),
//! * scale factors and zoom in per-mille (`_pm`).
//!
//! The application shell converts between these fixed-point values and the
//! floating-point values of its windowing toolkit at the edge; everything the
//! engine decides is decided here, on plain integers.

use vstd::prelude::*;

pub mod extract;
pub mod frame;
pub mod ingest;
pub mod interact;
pub mod model;
pub mod numfmt;
pub mod search;
pub mod style;
pub mod text;
pub mod transform;

verus! {

/// Largest magnitude accepted for a document coordinate, in milli-units.
pub const MAX_COORD_MU: i64 = 100_000_000_000;

/// Largest accepted character count of one fragment's text.
pub const MAX_TEXT_LEN: usize = 1_000_000;

/// Largest magnitude accepted for a screen offset (margin plus pan), in
/// micro-pixels.
pub const MAX_OFF_UPX: i64 = 1_000_000_000_000_000_000;

/// Largest magnitude accepted for a pan offset, in micro-pixels.
pub const MAX_PAN_UPX: i64 = 1_000_000_000_000_000;

/// Largest panel dimension accepted, in milli-pixels.
pub const MAX_PANEL_MPX: i64 = 100_000_000;

/// Largest scale factor: milli-pixels per document unit.
pub const SCALE_MAX: i64 = 1_000_000;

/// Lower zoom clamp, per-mille.
pub const ZOOM_MIN_PM: u32 = 500;

/// Upper zoom clamp, per-mille.
pub const ZOOM_MAX_PM: u32 = 3000;

} // verus!
