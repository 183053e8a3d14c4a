//! Style resolution: one table mapping an item's type and search state to
//! its font multiplier and colors, instead of scattered per-call-site
//! conditionals.

use vstd::prelude::*;

use crate::model::ItemType;

verus! {

/// An RGBA color, straight alpha.
#[derive(Clone, Copy, PartialEq, Eq, Structural, Debug)]
pub struct Color {
    pub r: u8,
    pub g: u8,
    pub b: u8,
    pub a: u8,
}

/// The font-size multiplier of an item type, per-mille.
pub open spec fn spec_type_multiplier_pm(t: ItemType) -> int {
    match t {
        ItemType::Title => 1200,
        ItemType::Header => 1100,
        ItemType::FormField => 950,
        _ => 1000,
    }
}

/// Resolves the font-size multiplier of an item type.
pub fn type_multiplier_pm(t: ItemType) -> (r: u32)
    ensures
        r == spec_type_multiplier_pm(t),
        950 <= r <= 1200,
{
    match t {
        ItemType::Title => 1200,
        ItemType::Header => 1100,
        ItemType::FormField => 950,
        _ => 1000,
    }
}

/// The glyph color of an item: search matches are highlighted uniformly,
/// regardless of item type.
pub open spec fn spec_text_color(t: ItemType, is_match: bool) -> Color {
    if is_match {
        Color { r: 255, g: 165, b: 0, a: 255 }
    } else {
        match t {
            ItemType::FormLabel => Color { r: 0, g: 0, b: 139, a: 255 },
            ItemType::FormField => Color { r: 60, g: 60, b: 60, a: 255 },
            ItemType::Checkbox => Color { r: 40, g: 40, b: 40, a: 255 },
            _ => Color { r: 20, g: 20, b: 20, a: 255 },
        }
    }
}

/// Resolves the glyph color of an item.
pub fn text_color(t: ItemType, is_match: bool) -> (r: Color)
    ensures
        r == spec_text_color(t, is_match),
{
    if is_match {
        Color { r: 255, g: 165, b: 0, a: 255 }
    } else {
        match t {
            ItemType::FormLabel => Color { r: 0, g: 0, b: 139, a: 255 },
            ItemType::FormField => Color { r: 60, g: 60, b: 60, a: 255 },
            ItemType::Checkbox => Color { r: 40, g: 40, b: 40, a: 255 },
            _ => Color { r: 20, g: 20, b: 20, a: 255 },
        }
    }
}

/// The translucent fill painted behind a search match.
pub fn highlight_fill() -> (r: Color)
    ensures
        r == (Color { r: 255, g: 255, b: 0, a: 60 }),
{
    Color { r: 255, g: 255, b: 0, a: 60 }
}

/// The hover outline color.
pub fn hover_outline() -> (r: Color)
    ensures
        r == (Color { r: 59, g: 130, b: 246, a: 255 }),
{
    Color { r: 59, g: 130, b: 246, a: 255 }
}

/// The column separator guide color.
pub fn column_guide_color() -> (r: Color)
    ensures
        r == (Color { r: 59, g: 130, b: 246, a: 60 }),
{
    Color { r: 59, g: 130, b: 246, a: 60 }
}

/// The color of the transient copied-text toast.
pub fn toast_color() -> (r: Color)
    ensures
        r == (Color { r: 16, g: 185, b: 129, a: 255 }),
{
    Color { r: 16, g: 185, b: 129, a: 255 }
}

} // verus!
