use painter::paint_canvas::PaintCanvas;
use painter::session::{Painter, PointerButton, PointerEvent, PointerPhase};
use painter::tools::{Color, Tool, ToolProperties};

const W: u32 = 64;
const H: u32 = 48;
const RED: Color = Color { r: 255, g: 0, b: 0, a: 255 };

fn painter() -> Painter {
    Painter::new(PaintCanvas::builder(W, H).build())
}

fn committed(painter: &Painter) -> Vec<u8> {
    painter.canvas().image().to_rgba8_premultiplied().unwrap().as_bytes().to_vec()
}

fn preview(painter: &Painter) -> Vec<u8> {
    painter.canvas().image_buffer().to_rgba8_premultiplied().unwrap().as_bytes().to_vec()
}

fn blank() -> Vec<u8> {
    vec![0u8; (4 * W * H) as usize]
}

fn down(x: i16, y: i16) -> PointerEvent {
    PointerEvent { button: PointerButton::Left, phase: PointerPhase::Down, x, y, pressed: true }
}

fn drag(x: i16, y: i16) -> PointerEvent {
    PointerEvent { button: PointerButton::Other, phase: PointerPhase::Move, x, y, pressed: true }
}

fn hover(x: i16, y: i16) -> PointerEvent {
    PointerEvent { button: PointerButton::Other, phase: PointerPhase::Move, x, y, pressed: false }
}

fn up(x: i16, y: i16) -> PointerEvent {
    PointerEvent { button: PointerButton::Left, phase: PointerPhase::Up, x, y, pressed: false }
}

fn rect(l: f32, t: f32, r: f32, b: f32) -> tiny_skia::Path {
    tiny_skia::PathBuilder::from_rect(tiny_skia::Rect::from_ltrb(l, t, r, b).unwrap())
}

fn stroke_rect(p: &mut Painter, from: (i16, i16), to: (i16, i16)) {
    p.select_tool(Tool::Rect);
    p.pointer_event(down(from.0, from.1));
    p.pointer_event(drag(to.0, to.1));
    p.pointer_event(up(to.0, to.1));
}

#[test]
fn rect_stroke_then_undo() {
    let mut p = painter();
    p.select_tool(Tool::Rect);
    p.pointer_event(down(10, 10));
    p.pointer_event(drag(50, 5));
    assert_eq!(*p.canvas().drawn_path().unwrap().path(), rect(10.0, 5.0, 50.0, 10.0));
    assert_ne!(preview(&p), blank());
    p.pointer_event(up(50, 5));
    assert_eq!(p.canvas().paths().len(), 1);
    assert_eq!(*p.canvas().paths()[0].path(), rect(10.0, 5.0, 50.0, 10.0));
    assert_eq!(p.canvas().paths()[0].tool_properties(), ToolProperties { size: 5, color: RED });
    assert!(p.canvas().drawn_path().is_none());
    assert_eq!(preview(&p), blank());
    assert_ne!(committed(&p), blank());
    p.undo();
    assert_eq!(p.canvas().paths().len(), 0);
    assert_eq!(committed(&p), blank());
}

#[test]
fn freehand_stroke_commits_the_trail() {
    let mut p = painter();
    p.pointer_event(down(5, 5));
    assert!(p.canvas().drawn_path().is_none());
    p.pointer_event(drag(10, 12));
    p.pointer_event(drag(30, 12));
    p.pointer_event(up(30, 12));
    assert_eq!(p.canvas().paths().len(), 1);
    let points = p.canvas().paths()[0].path().points().to_vec();
    let xy: Vec<(f32, f32)> = points.iter().map(|p| (p.x, p.y)).collect();
    assert_eq!(xy, vec![(5.0, 5.0), (10.0, 12.0), (30.0, 12.0)]);
}

#[test]
fn freehand_click_without_a_move_commits_nothing() {
    let mut p = painter();
    p.pointer_event(down(5, 5));
    p.pointer_event(up(5, 5));
    assert_eq!(p.canvas().paths().len(), 0);
    // the next stroke starts a new trail
    p.pointer_event(down(20, 20));
    p.pointer_event(drag(30, 20));
    p.pointer_event(up(30, 20));
    assert_eq!(p.canvas().paths()[0].path().points().len(), 2);
}

#[test]
fn shape_click_without_a_move_commits_a_degenerate_stroke() {
    let mut p = painter();
    p.select_tool(Tool::Rect);
    p.pointer_event(down(7, 7));
    p.pointer_event(up(7, 7));
    assert_eq!(p.canvas().paths().len(), 1);
    assert_eq!(*p.canvas().paths()[0].path(), rect(7.0, 7.0, 7.0, 7.0));
}

#[test]
fn release_without_a_held_press_commits_nothing() {
    let mut p = painter();
    p.select_tool(Tool::Line);
    p.pointer_event(PointerEvent {
        button: PointerButton::Left,
        phase: PointerPhase::Down,
        x: 7,
        y: 7,
        pressed: false,
    });
    p.pointer_event(up(7, 7));
    assert_eq!(p.canvas().paths().len(), 0);
}

#[test]
fn other_buttons_neither_start_nor_end_a_stroke() {
    let mut p = painter();
    p.select_tool(Tool::Line);
    p.pointer_event(PointerEvent {
        button: PointerButton::Right,
        phase: PointerPhase::Down,
        x: 3,
        y: 3,
        pressed: true,
    });
    assert!(p.canvas().drawn_path().is_none());
    p.pointer_event(down(3, 3));
    p.pointer_event(drag(20, 20));
    p.pointer_event(PointerEvent {
        button: PointerButton::Middle,
        phase: PointerPhase::Up,
        x: 20,
        y: 20,
        pressed: false,
    });
    assert_eq!(p.canvas().paths().len(), 0);
    assert!(p.canvas().drawn_path().is_some());
    p.pointer_event(up(20, 20));
    assert_eq!(p.canvas().paths().len(), 1);
}

#[test]
fn hovering_draws_nothing() {
    let mut p = painter();
    p.select_tool(Tool::Line);
    p.pointer_event(hover(10, 10));
    p.pointer_event(hover(20, 20));
    assert!(p.canvas().drawn_path().is_none());
    assert_eq!(preview(&p), blank());
    p.select_tool(Tool::Freehand);
    p.pointer_event(hover(10, 10));
    p.pointer_event(hover(20, 20));
    assert!(p.canvas().drawn_path().is_none());
}

#[test]
fn clear_then_undo_brings_the_strokes_back() {
    let mut p = painter();
    stroke_rect(&mut p, (5, 5), (20, 20));
    stroke_rect(&mut p, (10, 10), (40, 30));
    let before = committed(&p);
    p.clear();
    assert_eq!(p.canvas().paths().len(), 0);
    assert_eq!(committed(&p), blank());
    p.undo();
    assert_eq!(p.canvas().paths().len(), 2);
    assert_eq!(*p.canvas().paths()[0].path(), rect(5.0, 5.0, 20.0, 20.0));
    assert_eq!(*p.canvas().paths()[1].path(), rect(10.0, 10.0, 40.0, 30.0));
    assert_eq!(committed(&p), before);
    p.redo();
    assert_eq!(p.canvas().paths().len(), 0);
}

#[test]
fn three_strokes_two_undos_one_redo() {
    let mut p = painter();
    stroke_rect(&mut p, (5, 5), (20, 20));
    stroke_rect(&mut p, (10, 10), (40, 30));
    let after_two = committed(&p);
    stroke_rect(&mut p, (1, 1), (60, 40));
    p.undo();
    p.undo();
    p.redo();
    assert_eq!(p.canvas().paths().len(), 2);
    assert_eq!(*p.canvas().paths()[0].path(), rect(5.0, 5.0, 20.0, 20.0));
    assert_eq!(*p.canvas().paths()[1].path(), rect(10.0, 10.0, 40.0, 30.0));
    assert_eq!(committed(&p), after_two);
}

#[test]
fn new_stroke_after_undo_discards_the_redo_history() {
    let mut p = painter();
    stroke_rect(&mut p, (5, 5), (20, 20));
    p.undo();
    stroke_rect(&mut p, (10, 10), (40, 30));
    let before = committed(&p);
    p.redo();
    assert_eq!(p.canvas().paths().len(), 1);
    assert_eq!(*p.canvas().paths()[0].path(), rect(10.0, 10.0, 40.0, 30.0));
    assert_eq!(committed(&p), before);
}

#[test]
fn brush_size_applies_to_later_strokes_only() {
    let mut p = painter();
    stroke_rect(&mut p, (5, 5), (20, 20));
    p.set_brush_size(11);
    stroke_rect(&mut p, (10, 10), (40, 30));
    assert_eq!(p.canvas().paths()[0].tool_properties().size, 5);
    assert_eq!(p.canvas().paths()[1].tool_properties().size, 11);
}

#[test]
fn undo_and_redo_on_a_new_session_do_nothing() {
    let mut p = painter();
    p.undo();
    p.redo();
    assert_eq!(p.canvas().paths().len(), 0);
    assert_eq!(committed(&p), blank());
}

#[test]
fn brush_color_applies_to_later_strokes_only() {
    let blue = Color { r: 0, g: 0, b: 255, a: 255 };
    let mut p = painter();
    stroke_rect(&mut p, (5, 5), (20, 20));
    let before = committed(&p);
    p.set_brush_color(blue);
    assert_eq!(committed(&p), before);
    assert_eq!(p.canvas().tool_properties(), ToolProperties { size: 5, color: blue });
    stroke_rect(&mut p, (10, 10), (40, 30));
    assert_eq!(p.canvas().paths()[0].tool_properties().color, RED);
    assert_eq!(p.canvas().paths()[1].tool_properties().color, blue);
    let at = ((10 * W + 25) * 4) as usize;
    assert_eq!(&committed(&p)[at..at + 4], &[0, 0, 255, 255]);
}

#[test]
fn preview_color_applies_to_the_stroke_in_progress() {
    let mut p = painter();
    p.select_tool(Tool::Line);
    p.set_preview_color(Color { r: 0, g: 255, b: 0, a: 255 });
    assert_eq!(p.canvas().tool_preview_color(), Color { r: 0, g: 255, b: 0, a: 255 });
    p.pointer_event(down(5, 20));
    p.pointer_event(drag(60, 20));
    let at = ((20 * W + 30) * 4) as usize;
    assert_eq!(&preview(&p)[at..at + 4], &[0, 255, 0, 255]);
    p.pointer_event(up(60, 20));
    // the committed stroke has the brush colour, not the preview colour
    assert_eq!(&committed(&p)[at..at + 4], &[255, 0, 0, 255]);
}

#[test]
fn ellipse_stroke_commits_the_oval() {
    let mut p = painter();
    p.select_tool(Tool::Ellipse);
    p.pointer_event(down(10, 10));
    p.pointer_event(drag(50, 5));
    p.pointer_event(up(50, 5));
    assert_eq!(p.canvas().paths().len(), 1);
    let rect = tiny_skia::Rect::from_ltrb(10.0, 5.0, 50.0, 10.0).unwrap();
    assert_eq!(
        *p.canvas().paths()[0].path(),
        tiny_skia::PathBuilder::from_oval(rect).unwrap()
    );
}

#[test]
fn press_with_the_freehand_tool_records_no_start_point() {
    let mut p = painter();
    p.pointer_event(PointerEvent {
        button: PointerButton::Left,
        phase: PointerPhase::Down,
        x: 7,
        y: 7,
        pressed: false,
    });
    p.select_tool(Tool::Line);
    p.pointer_event(drag(30, 30));
    assert!(p.canvas().drawn_path().is_none());
}
