//! A raster paint canvas with undo and redo.
//!
//! Pointer positions become paths, paths are stroked onto two pixel surfaces
//! (the committed image and the preview of the stroke in progress), and every
//! committed stroke goes through a command log that can undo and redo it.
//!
//! - `geometry`: whole-pixel points, bounding boxes and outlines.
//! - `tools`: the tool selection, colours and stroke properties.
//! - `raster`: the boundary to the rasterizer and the pixel buffers.
//! - `paint_canvas`: the canvas and its builder.
//! - `undo_stack`: the command log, for any kind of command.
//! - `commands`: the commands of the painter.
//! - `session`: a canvas and its log under one owner, driven by events.

pub mod commands;
pub mod geometry;
pub mod paint_canvas;
pub mod raster;
pub mod session;
pub mod tools;
pub mod undo_stack;

pub use crate::paint_canvas::PaintCanvas;
pub use crate::tools::Tool;
