//! The paint canvas: the committed strokes, the two pixel surfaces that show
//! them, and the stroke in progress.

use vstd::prelude::*;
use crate::geometry::{Bounds, Outline, Point};
use crate::raster::{
    blank_buffer, buffer_bytes, buffer_image, buffer_size, builder_line_to, builder_move_to,
    builder_points, builder_snapshot, clear_buffer, image_bytes, image_size, is_drawable,
    oval_path, path_outline, rect_from_ltrb, size_fits, stroke_buffer, stroked, transparent, PixelBuffer,
    MAX_BUFFER_BYTES,
};
use crate::tools::{Color, Tool, ToolProperties};

verus! {

/// What a committed stroke is: the shape it traces and the properties it was
/// drawn with.
#[verifier::ext_equal]
pub struct Stroke {
    pub outline: Outline,
    pub properties: ToolProperties,
}

/// A finished path together with the tool properties that were current when
/// it was finished.
#[derive(Debug)]
pub struct DrawnPath {
    path: tiny_skia::Path,
    tool_properties: ToolProperties,
}

impl View for DrawnPath {
    type V = Stroke;

    closed spec fn view(&self) -> Stroke {
        Stroke { outline: path_outline(self.path), properties: self.tool_properties }
    }
}

impl DrawnPath {
    pub fn new(path: tiny_skia::Path, tool_properties: ToolProperties) -> (drawn: Self)
        ensures
            drawn@ == (Stroke { outline: path_outline(path), properties: tool_properties }),
    {
        Self { path, tool_properties }
    }

    /// The finished path.
    pub fn path(&self) -> (path: &tiny_skia::Path)
        ensures
            path_outline(*path) == self@.outline,
    {
        &self.path
    }

    /// The properties the path was finished with.
    pub fn tool_properties(&self) -> (properties: ToolProperties)
        ensures
            properties == self@.properties,
    {
        self.tool_properties
    }
}

impl Clone for DrawnPath {
    fn clone(&self) -> (copy: Self)
        ensures
            copy@ == self@,
    {
        Self { path: self.path.clone(), tool_properties: self.tool_properties }
    }
}

/// The strokes that a list of drawn paths stands for, in order.
pub open spec fn strokes_of(paths: Seq<DrawnPath>) -> Seq<Stroke> {
    paths.map_values(|path: DrawnPath| path@)
}

/// The pixels of a `width` by `height` surface on which the strokes have been
/// painted in order, each over the ones before it, starting from a
/// transparent surface.
pub open spec fn composite(width: u32, height: u32, strokes: Seq<Stroke>) -> Seq<u8>
    decreases strokes.len(),
{
    if strokes.len() == 0 {
        transparent((4 * width * height) as nat)
    } else {
        stroked(
            composite(width, height, strokes.drop_last()),
            width,
            height,
            strokes.last().outline,
            strokes.last().properties.size,
            strokes.last().properties.color,
        )
    }
}

/// The pixels of a `width` by `height` surface after the strokes have been
/// painted onto `pixels` one after another, the first of them first.
pub open spec fn painted_over(pixels: Seq<u8>, width: u32, height: u32, strokes: Seq<Stroke>) -> Seq<
    u8,
>
    decreases strokes.len(),
{
    if strokes.len() == 0 {
        pixels
    } else {
        painted_over(
            stroked(
                pixels,
                width,
                height,
                strokes.first().outline,
                strokes.first().properties.size,
                strokes.first().properties.color,
            ),
            width,
            height,
            strokes.drop_first(),
        )
    }
}

/// The stroke in progress.
#[derive(Debug)]
struct DrawingState {
    /// Where the drag began: used by the line, rectangle and ellipse tools.
    start: Option<Point>,
    /// The polyline so far: used by the freehand tool.
    path: Option<tiny_skia::PathBuilder>,
    /// The path that would be committed if the stroke ended now.
    path_finalized: Option<tiny_skia::Path>,
}

impl DrawingState {
    fn new() -> (state: Self)
        ensures
            state.start is None,
            state.path is None,
            state.path_finalized is None,
    {
        Self { start: None, path: None, path_finalized: None }
    }

    fn clear(&mut self)
        ensures
            final(self).start is None,
            final(self).path is None,
            final(self).path_finalized is None,
    {
        self.start = None;
        self.path = None;
        self.path_finalized = None;
    }
}

/// What a canvas is, as plain values.
#[verifier::ext_equal]
pub struct CanvasView {
    /// Width of both surfaces, in pixels.
    pub width: u32,
    /// Height of both surfaces, in pixels.
    pub height: u32,
    /// The committed strokes, oldest first.
    pub strokes: Seq<Stroke>,
    /// The pixels of the committed surface.
    pub committed: Seq<u8>,
    /// The pixels of the preview surface.
    pub preview: Seq<u8>,
    /// Where the drag of a shape tool began.
    pub start: Option<Point>,
    /// The points of the freehand stroke in progress.
    pub trail: Option<Seq<Point>>,
    /// The shape that would be committed if the stroke ended now.
    pub finalized: Option<Outline>,
    /// The selected tool.
    pub tool: Tool,
    /// The properties the next stroke is committed with.
    pub properties: ToolProperties,
    /// The colour the stroke in progress is shown in.
    pub preview_color: Color,
}

impl CanvasView {
    /// Number of bytes in each of the two surfaces.
    pub open spec fn byte_len(self) -> nat {
        (4 * self.width * self.height) as nat
    }

    /// The committed surface shows exactly the committed strokes.
    pub open spec fn is_composited(self) -> bool {
        self.committed == composite(self.width, self.height, self.strokes)
    }

    /// The preview surface once `path` has been shown on it: cleared, and
    /// where there is a path, that path stroked in the preview colour; the
    /// path is then also the one to commit.
    pub open spec fn shown(self, path: Option<Outline>) -> CanvasView {
        match path {
            Some(outline) => CanvasView {
                finalized: Some(outline),
                preview: stroked(
                    transparent(self.byte_len()),
                    self.width,
                    self.height,
                    outline,
                    self.properties.size,
                    self.preview_color,
                ),
                ..self
            },
            None => CanvasView { preview: transparent(self.byte_len()), ..self },
        }
    }

    /// The canvas after the line tool has followed the pointer to `to`: with
    /// no start point nothing changes; else the segment from the start point
    /// to `to` is shown.
    pub open spec fn line_preview(self, to: Point) -> CanvasView {
        match self.start {
            Some(start) => self.shown(Some(Outline::Polyline(seq![start, to]))),
            None => self,
        }
    }

    /// The canvas after the rectangle tool has followed the pointer to `to`:
    /// with no start point nothing changes; else the box spanned by the start
    /// point and `to` is shown.
    pub open spec fn rect_preview(self, to: Point) -> CanvasView {
        match self.start {
            Some(start) => self.shown(Some(Outline::Rectangle(Bounds::spanning(start, to)))),
            None => self,
        }
    }

    /// The canvas after the ellipse tool has followed the pointer to `to`:
    /// with no start point nothing changes; else the oval inscribed in the
    /// box spanned by the start point and `to` is shown.
    pub open spec fn ellipse_preview(self, to: Point) -> CanvasView {
        match self.start {
            Some(start) => self.shown(Some(Outline::Oval(Bounds::spanning(start, to)))),
            None => self,
        }
    }

    /// The canvas after the selected tool has followed the pointer to `to`.
    pub open spec fn previewed(self, to: Point) -> CanvasView {
        match self.tool {
            Tool::Freehand => self.freehand_preview(to),
            Tool::Line => self.line_preview(to),
            Tool::Rect => self.rect_preview(to),
            Tool::Ellipse => self.ellipse_preview(to),
        }
    }

    /// The canvas after a drag has begun at `at`: a shape tool takes the
    /// position as its start point, replacing an earlier one; the freehand
    /// tool, which starts with its first move, takes nothing.
    pub open spec fn started_at(self, at: Point) -> CanvasView {
        match self.tool {
            Tool::Freehand => self,
            _ => CanvasView { start: Some(at), ..self },
        }
    }

    /// The freehand trail once the pointer has moved to `to`.
    pub open spec fn extended_trail(self, to: Point) -> Seq<Point> {
        match self.trail {
            Some(trail) => trail.push(to),
            None => seq![to],
        }
    }

    /// The canvas after the freehand tool has followed the pointer to `to`:
    /// the trail grows by `to`, and once it has a segment it is shown.
    pub open spec fn freehand_preview(self, to: Point) -> CanvasView {
        let trail = self.extended_trail(to);
        let moved = CanvasView { trail: Some(trail), ..self };
        if trail.len() >= 2 {
            moved.shown(Some(Outline::Polyline(trail)))
        } else {
            moved.shown(None)
        }
    }

    /// The canvas after the freehand tool has followed the pointer through
    /// `moves`, one position after the other.
    pub open spec fn after_moves(self, moves: Seq<Point>) -> CanvasView
        decreases moves.len(),
    {
        if moves.len() == 0 {
            self
        } else {
            self.after_moves(moves.drop_last()).freehand_preview(moves.last())
        }
    }

    /// A new canvas of the given size: no strokes, both surfaces
    /// transparent, no stroke in progress, the freehand tool, a red stroke
    /// five pixels wide, and a light grey preview.
    pub open spec fn blank(width: u32, height: u32) -> CanvasView {
        CanvasView {
            width,
            height,
            strokes: Seq::empty(),
            committed: transparent((4 * width * height) as nat),
            preview: transparent((4 * width * height) as nat),
            start: None,
            trail: None,
            finalized: None,
            tool: Tool::Freehand,
            properties: ToolProperties { size: 5, color: Color { r: 255, g: 0, b: 0, a: 255 } },
            preview_color: Color { r: 212, g: 212, b: 216, a: 255 },
        }
    }

    /// The canvas with `stroke` added as the newest committed stroke.
    pub open spec fn with_stroke(self, stroke: Stroke) -> CanvasView {
        CanvasView { strokes: self.strokes.push(stroke), ..self }
    }

    /// The canvas without its newest committed stroke, if it has any.
    pub open spec fn without_last(self) -> CanvasView {
        if self.strokes.len() > 0 {
            CanvasView { strokes: self.strokes.drop_last(), ..self }
        } else {
            self
        }
    }

    /// The canvas with `strokes` as its committed strokes.
    pub open spec fn with_strokes(self, strokes: Seq<Stroke>) -> CanvasView {
        CanvasView { strokes, ..self }
    }

    /// The canvas with no stroke in progress.
    pub open spec fn idle(self) -> CanvasView {
        CanvasView { start: None, trail: None, finalized: None, ..self }
    }

    /// The stroke that would be committed if the stroke in progress ended
    /// now: the finalized shape with the current properties.
    pub open spec fn pending(self) -> Option<Stroke> {
        match self.finalized {
            Some(outline) => Some(Stroke { outline, properties: self.properties }),
            None => None,
        }
    }

    /// The canvas after a full recomposite: the preview is cleared and the
    /// committed surface is repainted from the committed strokes.
    pub open spec fn applied(self) -> CanvasView {
        CanvasView {
            committed: composite(self.width, self.height, self.strokes),
            preview: transparent(self.byte_len()),
            ..self
        }
    }
}

/// The paint canvas.
#[derive(Debug)]
pub struct PaintCanvas {
    /// The committed paths, oldest first.
    paths: Vec<DrawnPath>,
    /// The committed surface.
    buffer: PixelBuffer,
    /// The preview surface.
    path_preview: PixelBuffer,
    /// The stroke in progress.
    drawing_state: DrawingState,
    /// The selected tool.
    selected_tool: Tool,
    /// The properties the next stroke is committed with.
    tool_properties: ToolProperties,
    /// The colour the stroke in progress is shown in.
    tool_preview_color: Color,
}

impl View for PaintCanvas {
    type V = CanvasView;

    closed spec fn view(&self) -> CanvasView {
        CanvasView {
            width: buffer_size(self.buffer).0,
            height: buffer_size(self.buffer).1,
            strokes: strokes_of(self.paths@),
            committed: buffer_bytes(self.buffer),
            preview: buffer_bytes(self.path_preview),
            start: self.drawing_state.start,
            trail: match self.drawing_state.path {
                Some(builder) => Some(builder_points(builder)),
                None => None,
            },
            finalized: match self.drawing_state.path_finalized {
                Some(path) => Some(path_outline(path)),
                None => None,
            },
            tool: self.selected_tool,
            properties: self.tool_properties,
            preview_color: self.tool_preview_color,
        }
    }
}

impl PaintCanvas {
    /// Both surfaces have the same fitting size and hold four bytes per
    /// pixel, and a freehand stroke in progress has its starting point.
    pub closed spec fn wf(&self) -> bool {
        &&& is_drawable(self.buffer)
        &&& is_drawable(self.path_preview)
        &&& buffer_size(self.path_preview) == buffer_size(self.buffer)
        &&& self.drawing_state.path matches Some(builder) ==> builder_points(builder).len() >= 1
    }

    /// Of every well-formed canvas: its size fits, both surfaces hold four
    /// bytes for each pixel, and a freehand trail has its starting point.
    pub proof fn law_surfaces_sized(&self)
        requires
            self.wf(),
        ensures
            size_fits(self@.width, self@.height),
            self@.committed.len() == self@.byte_len(),
            self@.preview.len() == self@.byte_len(),
            self@.trail matches Some(trail) ==> trail.len() >= 1,
    {
    }

    /// Whether a canvas can have this size: both dimensions positive and the
    /// pixel data within `MAX_BUFFER_BYTES`.
    pub fn supports_size(width: u32, height: u32) -> (ok: bool)
        ensures
            ok == size_fits(width, height),
    {
        if width == 0 || height == 0 {
            return false;
        }
        assert(width * height <= 0xFFFF_FFFF * 0xFFFF_FFFF) by (nonlinear_arith)
            requires
                width <= 0xFFFF_FFFF,
                height <= 0xFFFF_FFFF,
        ;
        assert(4 * width * height == 4 * (width * height)) by (nonlinear_arith);
        let pixels: u64 = (width as u64) * (height as u64);
        pixels <= (MAX_BUFFER_BYTES / 4) as u64
    }

    /// Starts building a canvas of the given size.
    pub fn builder(width: u32, height: u32) -> (builder: PaintCanvasBuilder)
        requires
            size_fits(width, height),
        ensures
            builder.wf(),
            builder@ == CanvasView::blank(width, height),
    {
        PaintCanvasBuilder::new(width, height)
    }

    /// Records where the drag of a shape tool begins. With the freehand tool
    /// selected, does nothing.
    pub fn set_start(&mut self, mouse_x: i16, mouse_y: i16)
        ensures
            final(self).wf() == old(self).wf(),
            final(self)@ == old(self)@.started_at(Point { x: mouse_x, y: mouse_y }),
    {
        match self.selected_tool {
            Tool::Freehand => {},
            _ => {
                self.drawing_state.start = Some(Point { x: mouse_x, y: mouse_y });
            },
        }
    }

    /// Selects the tool.
    pub fn set_tool(&mut self, tool: Tool)
        ensures
            final(self).wf() == old(self).wf(),
            final(self)@ == (CanvasView { tool, ..old(self)@ }),
    {
        self.selected_tool = tool;
    }

    /// Sets the stroke width for the strokes committed from now on.
    pub fn set_tool_size(&mut self, size: u16)
        ensures
            final(self).wf() == old(self).wf(),
            final(self)@ == (CanvasView {
                properties: ToolProperties { size, color: old(self)@.properties.color },
                ..old(self)@
            }),
    {
        self.tool_properties.size = size;
    }

    /// Sets the stroke colour for the strokes committed from now on.
    pub fn set_tool_color(&mut self, color: Color)
        ensures
            final(self).wf() == old(self).wf(),
            final(self)@ == (CanvasView {
                properties: ToolProperties { size: old(self)@.properties.size, color },
                ..old(self)@
            }),
    {
        self.tool_properties.color = color;
    }

    /// Sets the colour in which the stroke in progress is shown.
    pub fn set_tool_preview_color(&mut self, color: Color)
        ensures
            final(self).wf() == old(self).wf(),
            final(self)@ == (CanvasView { preview_color: color, ..old(self)@ }),
    {
        self.tool_preview_color = color;
    }

    /// The selected tool.
    pub fn selected_tool(&self) -> (tool: Tool)
        ensures
            tool == self@.tool,
    {
        self.selected_tool
    }

    /// The properties the next stroke is committed with.
    pub fn tool_properties(&self) -> (properties: ToolProperties)
        ensures
            properties == self@.properties,
    {
        self.tool_properties
    }

    /// The colour in which the stroke in progress is shown.
    pub fn tool_preview_color(&self) -> (color: Color)
        ensures
            color == self@.preview_color,
    {
        self.tool_preview_color
    }

    /// The committed paths, oldest first.
    pub fn paths(&self) -> (paths: &Vec<DrawnPath>)
        ensures
            strokes_of(paths@) == self@.strokes,
    {
        &self.paths
    }

    /// The committed surface as an image.
    pub fn image(&self) -> (image: slint::Image)
        ensures
            image_bytes(image) == self@.committed,
            image_size(image) == (self@.width, self@.height),
    {
        buffer_image(&self.buffer)
    }

    /// The preview surface as an image.
    pub fn image_buffer(&self) -> (image: slint::Image)
        ensures
            image_bytes(image) == self@.preview,
            self.wf() ==> image_size(image) == (self@.width, self@.height),
    {
        buffer_image(&self.path_preview)
    }

    /// Clears the preview and repaints the committed surface from the
    /// committed paths: each in turn, with its own width and colour.
    pub fn apply(&mut self)
        requires
            old(self).wf(),
        ensures
            final(self).wf(),
            final(self)@ == old(self)@.applied(),
    {
        clear_buffer(&mut self.path_preview);
        clear_buffer(&mut self.buffer);
        let ghost width = buffer_size(self.buffer).0;
        let ghost height = buffer_size(self.buffer).1;
        let ghost strokes = strokes_of(self.paths@);
        let mut i: usize = 0;
        while i < self.paths.len()
            invariant
                i <= self.paths.len(),
                self.wf(),
                self.paths == old(self).paths,
                self.drawing_state == old(self).drawing_state,
                self.selected_tool == old(self).selected_tool,
                self.tool_properties == old(self).tool_properties,
                self.tool_preview_color == old(self).tool_preview_color,
                buffer_bytes(self.path_preview) == transparent(old(self)@.byte_len()),
                buffer_size(self.buffer) == (width, height),
                buffer_size(old(self).buffer) == (width, height),
                strokes == strokes_of(self.paths@),
                buffer_bytes(self.buffer) == composite(width, height, strokes.take(i as int)),
            decreases self.paths.len() - i,
        {
            let properties = self.paths[i].tool_properties;
            proof {
                assert(strokes.take(i + 1).drop_last() == strokes.take(i as int));
                assert(strokes.take(i + 1).last() == self.paths[i as int]@);
            }
            stroke_buffer(&mut self.buffer, &self.paths[i].path, properties.size, properties.color);
            i += 1;
        }
        proof {
            assert(strokes.take(i as int) == strokes);
        }
    }

    /// Shows `path` as the stroke in progress: the preview surface is cleared
    /// and, where there is a path, the path is stroked on it in the preview
    /// colour with the current width and becomes the path to commit.
    pub fn show_preview(&mut self, path: Option<tiny_skia::Path>)
        requires
            old(self).wf(),
        ensures
            final(self).wf(),
            final(self)@ == old(self)@.shown(
                match path {
                    Some(p) => Some(path_outline(p)),
                    None => None,
                },
            ),
    {
        clear_buffer(&mut self.path_preview);
        match path {
            Some(p) => {
                stroke_buffer(
                    &mut self.path_preview,
                    &p,
                    self.tool_properties.size,
                    self.tool_preview_color,
                );
                self.drawing_state.path_finalized = Some(p);
            },
            None => {},
        }
    }

    /// Follows the pointer with the freehand tool: the first position starts
    /// the trail, each later one adds a segment to it, and the trail is shown
    /// as soon as it has a segment.
    pub fn draw_freehand_buffer(&mut self, mouse_x: i16, mouse_y: i16)
        requires
            old(self).wf(),
        ensures
            final(self).wf(),
            final(self)@ == old(self)@.freehand_preview(Point { x: mouse_x, y: mouse_y }),
    {
        let to = Point { x: mouse_x, y: mouse_y };
        let builder = match self.drawing_state.path.take() {
            Some(mut builder) => {
                builder_line_to(&mut builder, to);
                builder
            },
            None => {
                let mut builder = tiny_skia::PathBuilder::new();
                builder_move_to(&mut builder, to);
                builder
            },
        };
        let snapshot = builder_snapshot(&builder);
        self.drawing_state.path = Some(builder);
        self.show_preview(snapshot);
    }

    /// Follows the pointer with the line tool: with a start point, shows the
    /// segment from it to the pointer; without one, does nothing.
    pub fn draw_line_buffer(&mut self, mouse_x: i16, mouse_y: i16)
        requires
            old(self).wf(),
        ensures
            final(self).wf(),
            final(self)@ == old(self)@.line_preview(Point { x: mouse_x, y: mouse_y }),
    {
        let start = match self.drawing_state.start {
            Some(start) => start,
            None => {
                return ;
            },
        };
        let mut builder = tiny_skia::PathBuilder::new();
        builder_move_to(&mut builder, start);
        builder_line_to(&mut builder, Point { x: mouse_x, y: mouse_y });
        let path = builder_snapshot(&builder);
        assert(builder_points(builder) =~= seq![start, Point { x: mouse_x, y: mouse_y }]);
        self.show_preview(path);
    }

    /// Follows the pointer with the rectangle tool: with a start point, shows
    /// the box spanned by it and the pointer, whichever way the drag went;
    /// without one, does nothing.
    pub fn draw_rect_buffer(&mut self, mouse_x: i16, mouse_y: i16)
        requires
            old(self).wf(),
        ensures
            final(self).wf(),
            final(self)@ == old(self)@.rect_preview(Point { x: mouse_x, y: mouse_y }),
    {
        let start = match self.drawing_state.start {
            Some(start) => start,
            None => {
                return ;
            },
        };
        let bounds = Bounds::between(start, Point { x: mouse_x, y: mouse_y });
        let path = match rect_from_ltrb(bounds) {
            Some(rect) => Some(tiny_skia::PathBuilder::from_rect(rect)),
            None => None,
        };
        self.show_preview(path);
    }

    /// Follows the pointer with the ellipse tool: with a start point, shows
    /// the oval inscribed in the box spanned by it and the pointer, whichever
    /// way the drag went; without one, does nothing.
    pub fn draw_circle_buffer(&mut self, mouse_x: i16, mouse_y: i16)
        requires
            old(self).wf(),
        ensures
            final(self).wf(),
            final(self)@ == old(self)@.ellipse_preview(Point { x: mouse_x, y: mouse_y }),
    {
        let start = match self.drawing_state.start {
            Some(start) => start,
            None => {
                return ;
            },
        };
        let bounds = Bounds::between(start, Point { x: mouse_x, y: mouse_y });
        let path = oval_path(bounds);
        self.show_preview(path);
    }

    /// Follows the pointer with the selected tool.
    pub fn draw_preview(&mut self, mouse_x: i16, mouse_y: i16)
        requires
            old(self).wf(),
        ensures
            final(self).wf(),
            final(self)@ == old(self)@.previewed(Point { x: mouse_x, y: mouse_y }),
    {
        match self.selected_tool {
            Tool::Freehand => self.draw_freehand_buffer(mouse_x, mouse_y),
            Tool::Line => self.draw_line_buffer(mouse_x, mouse_y),
            Tool::Rect => self.draw_rect_buffer(mouse_x, mouse_y),
            Tool::Ellipse => self.draw_circle_buffer(mouse_x, mouse_y),
        }
    }

    /// Appends `path` to the committed paths. The committed surface is not
    /// repainted: `apply` does that.
    pub fn add_path(&mut self, path: DrawnPath)
        ensures
            final(self).wf() == old(self).wf(),
            final(self)@ == old(self)@.with_stroke(path@),
    {
        self.paths.push(path);
        assert(strokes_of(self.paths@) =~= strokes_of(old(self).paths@).push(path@));
    }

    /// Removes the newest committed path, if there is one. The committed
    /// surface is not repainted: `apply` does that.
    pub fn pop_path(&mut self)
        ensures
            final(self).wf() == old(self).wf(),
            final(self)@ == old(self)@.without_last(),
    {
        let removed = self.paths.pop();
        assert(removed is Some ==> strokes_of(self.paths@) =~= strokes_of(
            old(self).paths@,
        ).drop_last());
    }

    /// Removes all committed paths and hands them out, oldest first, then
    /// recomposites: both surfaces end up transparent.
    pub fn clear_all(&mut self) -> (removed: Vec<DrawnPath>)
        requires
            old(self).wf(),
        ensures
            final(self).wf(),
            strokes_of(removed@) == old(self)@.strokes,
            final(self)@ == old(self)@.with_strokes(Seq::empty()).applied(),
    {
        let mut removed: Vec<DrawnPath> = Vec::new();
        std::mem::swap(&mut self.paths, &mut removed);
        assert(strokes_of(self.paths@) =~= Seq::<Stroke>::empty());
        self.apply();
        removed
    }

    /// Replaces the committed paths by `paths`, oldest first, then
    /// recomposites.
    pub fn restore_all(&mut self, paths: Vec<DrawnPath>)
        requires
            old(self).wf(),
        ensures
            final(self).wf(),
            final(self)@ == old(self)@.with_strokes(strokes_of(paths@)).applied(),
    {
        self.paths = paths;
        self.apply();
    }

    /// The path to commit if the stroke in progress ended now, with the
    /// current tool properties; none if nothing has been finalized.
    pub fn drawn_path(&self) -> (drawn: Option<DrawnPath>)
        ensures
            match drawn {
                Some(path) => self@.pending() == Some(path@),
                None => self@.pending() is None,
            },
    {
        match &self.drawing_state.path_finalized {
            Some(path) => Some(DrawnPath::new(path.clone(), self.tool_properties)),
            None => None,
        }
    }

    /// Forgets the stroke in progress.
    pub fn clear_state(&mut self)
        ensures
            old(self).wf() ==> final(self).wf(),
            final(self)@ == old(self)@.idle(),
    {
        self.drawing_state.clear();
    }
}

/// Builds a `PaintCanvas` step by step.
pub struct PaintCanvasBuilder {
    canvas: PaintCanvas,
}

impl View for PaintCanvasBuilder {
    type V = CanvasView;

    closed spec fn view(&self) -> CanvasView {
        self.canvas@
    }
}

impl PaintCanvasBuilder {
    /// The canvas under construction is well-formed.
    pub closed spec fn wf(&self) -> bool {
        self.canvas.wf()
    }

    /// Starts from a blank canvas of the given size.
    pub fn new(width: u32, height: u32) -> (builder: Self)
        requires
            size_fits(width, height),
        ensures
            builder.wf(),
            builder@ == CanvasView::blank(width, height),
    {
        let mut path_preview = blank_buffer(width, height);
        clear_buffer(&mut path_preview);
        let buffer = blank_buffer(width, height);
        let builder = Self {
            canvas: PaintCanvas {
                paths: Vec::new(),
                buffer,
                path_preview,
                drawing_state: DrawingState::new(),
                selected_tool: Tool::default(),
                tool_properties: ToolProperties::default(),
                tool_preview_color: Color::from_rgba8(212, 212, 216, 255),
            },
        };
        assert(builder@.strokes =~= Seq::<Stroke>::empty());
        builder
    }

    /// Sets width and colour of the strokes at once.
    pub fn tool_properties(self, tool_properties: ToolProperties) -> (builder: Self)
        ensures
            builder.wf() == self.wf(),
            builder@ == (CanvasView { properties: tool_properties, ..self@ }),
    {
        let mut builder = self;
        builder.canvas.tool_properties = tool_properties;
        builder
    }

    /// Sets the colour of the strokes.
    pub fn tool_color(self, color: Color) -> (builder: Self)
        ensures
            builder.wf() == self.wf(),
            builder@ == (CanvasView {
                properties: ToolProperties { size: self@.properties.size, color },
                ..self@
            }),
    {
        let mut builder = self;
        builder.canvas.tool_properties.color = color;
        builder
    }

    /// Sets the width of the strokes.
    pub fn tool_size(self, size: u16) -> (builder: Self)
        ensures
            builder.wf() == self.wf(),
            builder@ == (CanvasView {
                properties: ToolProperties { size, color: self@.properties.color },
                ..self@
            }),
    {
        let mut builder = self;
        builder.canvas.tool_properties.size = size;
        builder
    }

    /// Sets the colour in which the stroke in progress is shown.
    pub fn tool_preview_color(self, color: Color) -> (builder: Self)
        ensures
            builder.wf() == self.wf(),
            builder@ == (CanvasView { preview_color: color, ..self@ }),
    {
        let mut builder = self;
        builder.canvas.tool_preview_color = color;
        builder
    }

    /// Sets the tool.
    pub fn tool_type(self, tool: Tool) -> (builder: Self)
        ensures
            builder.wf() == self.wf(),
            builder@ == (CanvasView { tool, ..self@ }),
    {
        let mut builder = self;
        builder.canvas.selected_tool = tool;
        builder
    }

    /// Hands out the canvas.
    pub fn build(self) -> (canvas: PaintCanvas)
        ensures
            canvas.wf() == self.wf(),
            canvas@ == self@,
    {
        self.canvas
    }
}

/// Recompositing from an empty surface gives the same pixels as committing
/// stroke after stroke: the composite of some strokes followed by more is
/// the composite of the first with the others painted over it, in order.
pub proof fn law_composite_is_incremental(
    width: u32,
    height: u32,
    strokes: Seq<Stroke>,
    more: Seq<Stroke>,
)
    ensures
        composite(width, height, strokes + more) == painted_over(
            composite(width, height, strokes),
            width,
            height,
            more,
        ),
    decreases more.len(),
{
    if more.len() == 0 {
        assert(strokes + more =~= strokes);
    } else {
        let next = strokes.push(more.first());
        assert(next.drop_last() =~= strokes);
        law_composite_is_incremental(width, height, next, more.drop_first());
        assert(next + more.drop_first() =~= strokes + more);
    }
}

/// A recomposite after one more commit paints just the new stroke over what
/// the recomposite before it gave; and a recomposite of all strokes is all of
/// them painted, in commit order, over a transparent surface.
pub proof fn law_commit_paints_over(canvas: CanvasView, stroke: Stroke)
    ensures
        canvas.with_stroke(stroke).applied().committed == stroked(
            canvas.applied().committed,
            canvas.width,
            canvas.height,
            stroke.outline,
            stroke.properties.size,
            stroke.properties.color,
        ),
        canvas.applied().committed == painted_over(
            transparent(canvas.byte_len()),
            canvas.width,
            canvas.height,
            canvas.strokes,
        ),
{
    assert(canvas.strokes.push(stroke).drop_last() =~= canvas.strokes);
    law_composite_is_incremental(canvas.width, canvas.height, Seq::empty(), canvas.strokes);
    assert(Seq::<Stroke>::empty() + canvas.strokes =~= canvas.strokes);
}

/// The rectangle and the ellipse tool give the same shape and the same
/// preview whichever of two corners the drag starts from.
pub proof fn law_drag_direction(canvas: CanvasView, a: Point, b: Point)
    ensures
        ({
            let from_a = CanvasView { start: Some(a), ..canvas };
            let from_b = CanvasView { start: Some(b), ..canvas };
            &&& from_a.rect_preview(b).finalized == from_b.rect_preview(a).finalized
            &&& from_a.rect_preview(b).preview == from_b.rect_preview(a).preview
            &&& from_a.rect_preview(b).finalized == Some(
                Outline::Rectangle(Bounds::spanning(a, b)),
            )
            &&& from_a.ellipse_preview(b).finalized == from_b.ellipse_preview(a).finalized
            &&& from_a.ellipse_preview(b).preview == from_b.ellipse_preview(a).preview
            &&& from_a.ellipse_preview(b).finalized == Some(Outline::Oval(Bounds::spanning(a, b)))
        }),
{
    crate::geometry::law_spanning_symmetric(a, b);
}

/// The freehand trail grows by one vertex with every pointer move: after the
/// moves of a stroke that began with no trail, the trail is exactly the
/// positions moved through, and from the second move on the path to commit is
/// the polyline through them.
pub proof fn law_trail_grows(canvas: CanvasView, moves: Seq<Point>)
    requires
        canvas.trail is None,
        moves.len() > 0,
    ensures
        canvas.after_moves(moves).trail == Some(moves),
        moves.len() >= 2 ==> canvas.after_moves(moves).finalized == Some(Outline::Polyline(moves)),
        moves.len() == 1 ==> canvas.after_moves(moves).finalized == canvas.finalized,
    decreases moves.len(),
{
    if moves.len() == 1 {
        assert(moves.drop_last() =~= Seq::<Point>::empty());
        assert(canvas.after_moves(moves.drop_last()) == canvas);
        assert(seq![moves.last()] =~= moves);
    } else {
        law_trail_grows(canvas, moves.drop_last());
        assert(moves.drop_last().push(moves.last()) =~= moves);
    }
}

/// One pointer move adds one vertex to the freehand trail.
pub proof fn law_move_adds_vertex(canvas: CanvasView, to: Point)
    ensures
        canvas.freehand_preview(to).trail == Some(canvas.extended_trail(to)),
        canvas.extended_trail(to).len() == match canvas.trail {
            Some(trail) => trail.len() + 1,
            None => 1,
        },
        canvas.extended_trail(to).last() == to,
{
}

/// The preview holds one stroke at a time: showing a path leaves nothing of
/// what was shown before it.
pub proof fn law_preview_holds_one_stroke(
    canvas: CanvasView,
    earlier: Option<Outline>,
    path: Option<Outline>,
)
    ensures
        canvas.shown(earlier).shown(path).preview == canvas.shown(path).preview,
        canvas.shown(earlier).shown(None).preview == transparent(canvas.byte_len()),
{
}

/// Width and colour are snapshotted when a stroke is committed: changing the
/// current properties alters neither the committed strokes nor what a
/// recomposite paints.
pub proof fn law_properties_do_not_reach_back(canvas: CanvasView, properties: ToolProperties)
    ensures
        (CanvasView { properties, ..canvas }).strokes == canvas.strokes,
        (CanvasView { properties, ..canvas }).applied().committed == canvas.applied().committed,
{
}

/// A shape tool can follow every pointer move, the first included: the
/// preview is made anew from the start point and the pointer alone, so that
/// following the pointer to where it already is changes nothing.
pub proof fn law_shape_preview_repeats(canvas: CanvasView, to: Point)
    requires
        canvas.tool != Tool::Freehand,
    ensures
        canvas.previewed(to).previewed(to) == canvas.previewed(to),
        canvas.previewed(to).strokes == canvas.strokes,
        canvas.previewed(to).committed == canvas.committed,
        canvas.previewed(to).start == canvas.start,
        canvas.previewed(to).tool == canvas.tool,
{
}

} // verus!
