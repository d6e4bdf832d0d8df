//! The boundary to the rasterizer and to the pixel buffers of the UI toolkit.
//!
//! Everything in this file is believed, not proved: each item names the
//! outside function it stands for and says what is claimed of it. The rest of
//! the crate is verified against these contracts.

use vstd::prelude::*;
use crate::geometry::{Bounds, Outline, Point};
use crate::tools::Color;

verus! {

/// `tiny_skia::PathBuilder`: a path under construction. Nothing inside it is
/// visible here but through `builder_points`.
#[verifier::external_type_specification]
#[verifier::external_body]
pub struct ExPathBuilder(tiny_skia::PathBuilder);

/// `tiny_skia::Path`: a finished path. Nothing inside it is visible here but
/// through `path_outline`.
#[verifier::external_type_specification]
#[verifier::external_body]
pub struct ExPath(tiny_skia::Path);

/// `tiny_skia::Rect`: a rectangle with ordered, finite edges. Nothing inside
/// it is visible here but through `rect_bounds`.
#[verifier::external_type_specification]
#[verifier::external_body]
pub struct ExRect(tiny_skia::Rect);

/// `rgb::Rgba`: one pixel of a surface. Carried, never read.
#[verifier::external_type_specification]
#[verifier::external_body]
#[verifier::reject_recursive_types(T)]
#[verifier::reject_recursive_types(A)]
pub struct ExRgba<T, A>(rgb::Rgba<T, A>);

/// `slint::SharedPixelBuffer`: a raster surface. Nothing inside it is
/// visible here but through `buffer_bytes` and `buffer_size`.
#[verifier::external_type_specification]
#[verifier::external_body]
#[verifier::reject_recursive_types(Pixel)]
pub struct ExSharedPixelBuffer<Pixel>(slint::SharedPixelBuffer<Pixel>);

/// `slint::Image`: what the user interface shows. Nothing inside it is
/// visible here but through `image_bytes` and `image_size`.
#[verifier::external_type_specification]
#[verifier::external_body]
pub struct ExImage(slint::Image);

/// A raster surface of premultiplied RGBA pixels, four bytes each, row by row.
pub type PixelBuffer = slint::SharedPixelBuffer<slint::Rgba8Pixel>;

/// The most bytes of pixel data a surface may hold: one GiB. Under this bound
/// every limit of the machine and of the rasterizer holds at once: the pixel
/// data with its header can be allocated where addresses have 32 bits as well
/// as where they have 64, four times the width stays within `i32::MAX`, and
/// so does either dimension.
pub const MAX_BUFFER_BYTES: u32 = 0x4000_0000;

/// The points a path builder holds: the start of its one contour, then the
/// end of each line segment added to it.
pub uninterp spec fn builder_points(builder: tiny_skia::PathBuilder) -> Seq<Point>;

/// The shape a finished path traces.
pub uninterp spec fn path_outline(path: tiny_skia::Path) -> Outline;

/// The edges of a rectangle.
pub uninterp spec fn rect_bounds(rect: tiny_skia::Rect) -> Bounds;

/// The bytes of a surface's pixels.
pub uninterp spec fn buffer_bytes(buffer: PixelBuffer) -> Seq<u8>;

/// The width and the height a surface was made with, in pixels.
pub uninterp spec fn buffer_size(buffer: PixelBuffer) -> (u32, u32);

/// The bytes of the pixels an image shows.
pub uninterp spec fn image_bytes(image: slint::Image) -> Seq<u8>;

/// The width and the height of an image, in pixels.
pub uninterp spec fn image_size(image: slint::Image) -> (u32, u32);

/// The pixels of a `width` by `height` surface after the rasterizer has
/// stroked `outline` onto `pixels` with a solid `color`, `size` pixels wide.
pub uninterp spec fn stroked(
    pixels: Seq<u8>,
    width: u32,
    height: u32,
    outline: Outline,
    size: u16,
    color: Color,
) -> Seq<u8>;

/// Width and height are positive and the pixel data stays within
/// `MAX_BUFFER_BYTES`.
pub open spec fn size_fits(width: u32, height: u32) -> bool {
    &&& 0 < width
    &&& 0 < height
    &&& 4 * width * height <= MAX_BUFFER_BYTES
}

/// The surface can be handed to the rasterizer: its size fits and it holds
/// four bytes for each of its pixels.
pub open spec fn is_drawable(buffer: PixelBuffer) -> bool {
    let (width, height) = buffer_size(buffer);
    &&& size_fits(width, height)
    &&& buffer_bytes(buffer).len() == 4 * width * height
}

/// All bytes zero: every pixel transparent.
pub open spec fn transparent(len: nat) -> Seq<u8> {
    Seq::new(len, |i: int| 0u8)
}

/// `PathBuilder::new`: the new builder holds no point.
pub assume_specification[ tiny_skia::PathBuilder::new ]() -> (builder: tiny_skia::PathBuilder)
    ensures
        builder_points(builder) == Seq::<Point>::empty(),
;

/// `PathBuilder::move_to`: on a builder that holds at most its starting
/// point, sets that point.
#[verifier::external_body]
pub(crate) fn builder_move_to(builder: &mut tiny_skia::PathBuilder, to: Point)
    requires
        builder_points(*old(builder)).len() <= 1,
    ensures
        builder_points(*final(builder)) == seq![to],
{
    builder.move_to(to.x.into(), to.y.into());
}

/// `PathBuilder::line_to`: on a builder that has its starting point, adds a
/// line segment that ends at `to`.
#[verifier::external_body]
pub(crate) fn builder_line_to(builder: &mut tiny_skia::PathBuilder, to: Point)
    requires
        builder_points(*old(builder)).len() >= 1,
    ensures
        builder_points(*final(builder)) == builder_points(*old(builder)).push(to),
{
    builder.line_to(to.x.into(), to.y.into());
}

/// `PathBuilder::finish`, on a copy of the builder: there is a path exactly
/// when the builder holds at least one line segment, and it traces the
/// polyline through the builder's points.
#[verifier::external_body]
pub(crate) fn builder_snapshot(builder: &tiny_skia::PathBuilder) -> (path: Option<tiny_skia::Path>)
    ensures
        path.is_some() <==> builder_points(*builder).len() >= 2,
        path matches Some(p) ==> path_outline(p) == Outline::Polyline(builder_points(*builder)),
{
    builder.clone().finish()
}

/// `Path::clone`: the copy traces the same shape.
pub assume_specification[ <tiny_skia::Path as Clone>::clone ](path: &tiny_skia::Path) -> (copy:
    tiny_skia::Path)
    ensures
        path_outline(copy) == path_outline(*path),
;

/// `Rect::from_ltrb`: there is a rectangle exactly when the edges are
/// ordered, and it has those edges.
#[verifier::external_body]
pub(crate) fn rect_from_ltrb(bounds: Bounds) -> (rect: Option<tiny_skia::Rect>)
    ensures
        rect.is_some() <==> bounds.is_ordered(),
        rect matches Some(r) ==> rect_bounds(r) == bounds,
{
    tiny_skia::Rect::from_ltrb(
        bounds.left.into(),
        bounds.top.into(),
        bounds.right.into(),
        bounds.bottom.into(),
    )
}

/// `PathBuilder::from_rect`: the path traces the rectangle's outline.
pub assume_specification[ tiny_skia::PathBuilder::from_rect ](rect: tiny_skia::Rect) -> (path:
    tiny_skia::Path)
    ensures
        path_outline(path) == Outline::Rectangle(rect_bounds(rect)),
;

/// `PathBuilder::from_oval`, on the rectangle that `Rect::from_ltrb` makes of
/// ordered whole-pixel edges: there is a path, and it traces the oval
/// inscribed in the box. The oval is a move, four conics turned into curves
/// through finite points, and a close, so that finishing it finds more than
/// one segment and finite bounds; a box without width or height gives a flat
/// oval all the same.
#[verifier::external_body]
pub(crate) fn oval_path(bounds: Bounds) -> (path: Option<tiny_skia::Path>)
    requires
        bounds.is_ordered(),
    ensures
        path is Some,
        path matches Some(p) ==> path_outline(p) == Outline::Oval(bounds),
{
    let rect = tiny_skia::Rect::from_ltrb(
        bounds.left.into(),
        bounds.top.into(),
        bounds.right.into(),
        bounds.bottom.into(),
    )?;
    tiny_skia::PathBuilder::from_oval(rect)
}

/// `SharedPixelBuffer::new`: a surface of the given size with every pixel
/// transparent.
#[verifier::external_body]
pub(crate) fn blank_buffer(width: u32, height: u32) -> (buffer: PixelBuffer)
    requires
        size_fits(width, height),
    ensures
        buffer_size(buffer) == (width, height),
        buffer_bytes(buffer) == transparent((4 * width * height) as nat),
{
    slint::SharedPixelBuffer::new(width, height)
}

/// `PixmapMut::fill` with the transparent colour, on the surface's bytes:
/// every pixel becomes transparent.
#[verifier::external_body]
pub(crate) fn clear_buffer(buffer: &mut PixelBuffer)
    requires
        is_drawable(*old(buffer)),
    ensures
        buffer_size(*final(buffer)) == buffer_size(*old(buffer)),
        buffer_bytes(*final(buffer)) == transparent(buffer_bytes(*old(buffer)).len()),
{
    let (width, height) = (buffer.width(), buffer.height());
    let mut pixmap = tiny_skia::PixmapMut::from_bytes(buffer.make_mut_bytes(), width, height).unwrap();
    pixmap.fill(tiny_skia::Color::TRANSPARENT);
}

/// `PixmapMut::stroke_path` on the surface's bytes, with a solid colour, the
/// default stroke but for its width, no transform and no mask: the pixels
/// become `stroked` of what they were, and stay as many.
#[verifier::external_body]
pub(crate) fn stroke_buffer(buffer: &mut PixelBuffer, path: &tiny_skia::Path, size: u16, color: Color)
    requires
        is_drawable(*old(buffer)),
    ensures
        buffer_size(*final(buffer)) == buffer_size(*old(buffer)),
        buffer_bytes(*final(buffer)) == stroked(
            buffer_bytes(*old(buffer)),
            buffer_size(*old(buffer)).0,
            buffer_size(*old(buffer)).1,
            path_outline(*path),
            size,
            color,
        ),
        buffer_bytes(*final(buffer)).len() == buffer_bytes(*old(buffer)).len(),
{
    let mut paint = tiny_skia::Paint::default();
    paint.set_color_rgba8(color.r, color.g, color.b, color.a);
    let stroke = tiny_skia::Stroke { width: size.into(), ..Default::default() };
    let (width, height) = (buffer.width(), buffer.height());
    let mut pixmap = tiny_skia::PixmapMut::from_bytes(buffer.make_mut_bytes(), width, height).unwrap();
    pixmap.stroke_path(path, &paint, &stroke, tiny_skia::Transform::default(), None);
}

/// `Image::from_rgba8_premultiplied`, on a copy of the surface: the image
/// shows the surface's pixels and has its size.
#[verifier::external_body]
pub(crate) fn buffer_image(buffer: &PixelBuffer) -> (image: slint::Image)
    ensures
        image_bytes(image) == buffer_bytes(*buffer),
        image_size(image) == buffer_size(*buffer),
{
    slint::Image::from_rgba8_premultiplied(buffer.clone())
}

} // verus!
