//! Tool selection and the properties a stroke is drawn with.

use vstd::prelude::*;

verus! {

/// The drawing tool: decides how pointer positions become a path.
#[derive(Clone, Copy, Debug, PartialEq, Eq, Structural)]
pub enum Tool {
    Freehand,
    Line,
    Rect,
    Ellipse,
}

impl Default for Tool {
    fn default() -> (tool: Tool)
        ensures
            tool == Tool::Freehand,
    {
        Tool::Freehand
    }
}

/// A straight (not premultiplied) RGBA colour, eight bits per channel.
#[derive(Clone, Copy, Debug, PartialEq, Eq, Structural)]
pub struct Color {
    pub r: u8,
    pub g: u8,
    pub b: u8,
    pub a: u8,
}

impl Color {
    pub fn from_rgba8(r: u8, g: u8, b: u8, a: u8) -> (color: Color)
        ensures
            color == (Color { r, g, b, a }),
    {
        Color { r, g, b, a }
    }
}

/// Stroke width in pixels and stroke colour.
#[derive(Clone, Copy, Debug, PartialEq, Eq, Structural)]
pub struct ToolProperties {
    pub size: u16,
    pub color: Color,
}

impl Default for ToolProperties {
    fn default() -> (properties: ToolProperties)
        ensures
            properties == (ToolProperties { size: 5, color: Color { r: 255, g: 0, b: 0, a: 255 } }),
    {
        ToolProperties { size: 5, color: Color::from_rgba8(255, 0, 0, 255) }
    }
}

} // verus!
