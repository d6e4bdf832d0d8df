//! One painting session: a canvas and its command log under one owner, driven
//! by pointer and control events.

use vstd::prelude::*;
use crate::commands::{tracks, AddPath, CanvasCommand, ClearPaths, CommandView};
use crate::geometry::Point;
use crate::paint_canvas::{CanvasView, PaintCanvas};
use crate::tools::{Color, Tool, ToolProperties};
use crate::undo_stack::{Command, LogView, UndoStack};

verus! {

/// The button of a pointer event.
#[derive(Clone, Copy, Debug, PartialEq, Eq, Structural)]
pub enum PointerButton {
    /// The primary button: the only one that draws.
    Left,
    Right,
    Middle,
    Other,
}

/// What happened to the button of a pointer event.
#[derive(Clone, Copy, Debug, PartialEq, Eq, Structural)]
pub enum PointerPhase {
    Down,
    Up,
    /// The pointer moved, or the event was cancelled.
    Move,
}

/// A pointer event at a position on the canvas.
#[derive(Clone, Copy, Debug, PartialEq, Eq, Structural)]
pub struct PointerEvent {
    pub button: PointerButton,
    pub phase: PointerPhase,
    pub x: i16,
    pub y: i16,
    /// Whether a button is held while the event arrives.
    pub pressed: bool,
}

/// What a session is, as plain values.
#[verifier::ext_equal]
pub struct SessionView {
    pub canvas: CanvasView,
    pub log: LogView<CommandView>,
}

impl SessionView {
    /// The session after a press of the primary button at `at`: a shape tool
    /// takes the position as the start of the drag.
    pub open spec fn pressed_at(self, at: Point) -> SessionView {
        SessionView { canvas: self.canvas.started_at(at), ..self }
    }

    /// The session after a release of the primary button: the pending stroke,
    /// if there is one, is committed through the log; the stroke in progress
    /// is forgotten either way.
    pub open spec fn released(self) -> SessionView {
        match self.canvas.pending() {
            Some(stroke) => {
                let (log, canvas) = UndoStack::<CanvasCommand>::pushed(
                    self.log,
                    self.canvas,
                    CommandView::Add(stroke),
                );
                SessionView { canvas: canvas.idle(), log }
            },
            None => SessionView { canvas: self.canvas.idle(), ..self },
        }
    }

    /// The session after a pointer event. A press or a release counts for
    /// the primary button alone; after it, while a button is held, the
    /// selected tool follows the pointer.
    pub open spec fn after_pointer(self, event: PointerEvent) -> SessionView {
        let at = Point { x: event.x, y: event.y };
        let acted = if event.button == PointerButton::Left {
            match event.phase {
                PointerPhase::Down => self.pressed_at(at),
                PointerPhase::Up => self.released(),
                PointerPhase::Move => self,
            }
        } else {
            self
        };
        if event.pressed {
            SessionView { canvas: acted.canvas.previewed(at), ..acted }
        } else {
            acted
        }
    }

    /// The session after the canvas has been cleared through the log.
    pub open spec fn cleared(self) -> SessionView {
        let (log, canvas) = UndoStack::<CanvasCommand>::pushed(
            self.log,
            self.canvas,
            CommandView::Clear(Seq::empty()),
        );
        SessionView { canvas, log }
    }

    /// The session after an undo.
    pub open spec fn undone(self) -> SessionView {
        let (log, canvas) = UndoStack::<CanvasCommand>::undone(self.log, self.canvas);
        SessionView { canvas, log }
    }

    /// The session after a redo.
    pub open spec fn redone(self) -> SessionView {
        let (log, canvas) = UndoStack::<CanvasCommand>::redone(self.log, self.canvas);
        SessionView { canvas, log }
    }
}

/// A canvas together with the log of the commands executed on it. The
/// committed strokes change through the log alone.
pub struct Painter {
    canvas: PaintCanvas,
    undo_stack: UndoStack<CanvasCommand>,
}

impl View for Painter {
    type V = SessionView;

    closed spec fn view(&self) -> SessionView {
        SessionView { canvas: self.canvas@, log: self.undo_stack@ }
    }
}

impl Painter {
    /// Canvas and log are well-formed, the committed surface shows exactly
    /// the committed strokes, and the executed commands account for them.
    pub closed spec fn wf(&self) -> bool {
        &&& self.canvas.wf()
        &&& self.undo_stack.wf()
        &&& self@.canvas.is_composited()
        &&& tracks(self@.log.undo, self@.canvas.strokes)
    }

    /// Of every well-formed session: the committed surface shows exactly the
    /// committed strokes, the executed commands account for them, and every
    /// command that can be redone is ready.
    pub proof fn law_session_invariant(&self)
        requires
            self.wf(),
        ensures
            self@.canvas.is_composited(),
            tracks(self@.log.undo, self@.canvas.strokes),
            forall|i: int|
                0 <= i < self@.log.redo.len() ==> CanvasCommand::ready(#[trigger] self@.log.redo[i]),
    {
    }

    /// Starts a session on `canvas`, recomposited, with an empty log.
    pub fn new(canvas: PaintCanvas) -> (painter: Self)
        requires
            canvas.wf(),
        ensures
            painter.wf(),
            painter@.canvas == canvas@.applied(),
            painter@.log.undo.len() == 0,
            painter@.log.redo.len() == 0,
    {
        let mut canvas = canvas;
        canvas.apply();
        Self { canvas, undo_stack: UndoStack::new() }
    }

    /// The canvas, to read and to show.
    pub fn canvas(&self) -> (canvas: &PaintCanvas)
        ensures
            canvas@ == self@.canvas,
            self.wf() ==> canvas.wf(),
    {
        &self.canvas
    }

    /// Handles a pointer event.
    pub fn pointer_event(&mut self, event: PointerEvent)
        requires
            old(self).wf(),
        ensures
            final(self).wf(),
            final(self)@ == old(self)@.after_pointer(event),
    {
        if event.button == PointerButton::Left {
            match event.phase {
                PointerPhase::Down => {
                    self.canvas.set_start(event.x, event.y);
                },
                PointerPhase::Up => {
                    match self.canvas.drawn_path() {
                        Some(path) => {
                            proof {
                                crate::commands::law_log_keeps_track(
                                    self@.log,
                                    self@.canvas,
                                    CommandView::Add(path@),
                                );
                            }
                            let command = CanvasCommand::AddPath(AddPath::new(path));
                            self.undo_stack.push(command, &mut self.canvas);
                        },
                        None => {},
                    }
                    self.canvas.clear_state();
                },
                PointerPhase::Move => {},
            }
        }
        if event.pressed {
            self.canvas.draw_preview(event.x, event.y);
        }
    }

    /// Selects the tool.
    pub fn select_tool(&mut self, tool: Tool)
        requires
            old(self).wf(),
        ensures
            final(self).wf(),
            final(self)@ == (SessionView {
                canvas: CanvasView { tool, ..old(self)@.canvas },
                ..old(self)@
            }),
    {
        self.canvas.set_tool(tool);
    }

    /// Sets the stroke width for the strokes committed from now on.
    pub fn set_brush_size(&mut self, size: u16)
        requires
            old(self).wf(),
        ensures
            final(self).wf(),
            final(self)@ == (SessionView {
                canvas: CanvasView {
                    properties: ToolProperties {
                        size,
                        color: old(self)@.canvas.properties.color,
                    },
                    ..old(self)@.canvas
                },
                ..old(self)@
            }),
    {
        self.canvas.set_tool_size(size);
    }

    /// Sets the stroke colour for the strokes committed from now on.
    pub fn set_brush_color(&mut self, color: Color)
        requires
            old(self).wf(),
        ensures
            final(self).wf(),
            final(self)@ == (SessionView {
                canvas: CanvasView {
                    properties: ToolProperties {
                        size: old(self)@.canvas.properties.size,
                        color,
                    },
                    ..old(self)@.canvas
                },
                ..old(self)@
            }),
    {
        self.canvas.set_tool_color(color);
    }

    /// Sets the colour in which the stroke in progress is shown.
    pub fn set_preview_color(&mut self, color: Color)
        requires
            old(self).wf(),
        ensures
            final(self).wf(),
            final(self)@ == (SessionView {
                canvas: CanvasView { preview_color: color, ..old(self)@.canvas },
                ..old(self)@
            }),
    {
        self.canvas.set_tool_preview_color(color);
    }

    /// Clears the canvas through the log, so that an undo brings the strokes
    /// back.
    pub fn clear(&mut self)
        requires
            old(self).wf(),
        ensures
            final(self).wf(),
            final(self)@ == old(self)@.cleared(),
    {
        let command = CanvasCommand::ClearPaths(ClearPaths::new());
        proof {
            crate::commands::law_log_keeps_track(self@.log, self@.canvas, command@);
        }
        self.undo_stack.push(command, &mut self.canvas);
    }

    /// Reverses the newest executed command, if there is one.
    pub fn undo(&mut self)
        requires
            old(self).wf(),
        ensures
            final(self).wf(),
            final(self)@ == old(self)@.undone(),
    {
        proof {
            crate::commands::law_log_keeps_track(
                self@.log,
                self@.canvas,
                CommandView::Clear(Seq::empty()),
            );
        }
        self.undo_stack.undo(&mut self.canvas);
    }

    /// Executes again the command that was reversed last, if there is one.
    pub fn redo(&mut self)
        requires
            old(self).wf(),
        ensures
            final(self).wf(),
            final(self)@ == old(self)@.redone(),
    {
        proof {
            crate::commands::law_log_keeps_track(
                self@.log,
                self@.canvas,
                CommandView::Clear(Seq::empty()),
            );
        }
        self.undo_stack.redo(&mut self.canvas);
    }
}

/// In a session, an undo right after a stroke was committed takes the
/// committed strokes, and with them the committed pixels, back to what they
/// were before the stroke.
pub proof fn law_undo_reverts_stroke(session: SessionView)
    requires
        session.canvas.pending() is Some,
    ensures
        session.released().undone().canvas.strokes == session.canvas.strokes,
        session.released().undone().canvas.committed == session.canvas.applied().committed,
        session.released().undone().log.undo == session.log.undo,
{
    let stroke = session.canvas.pending().unwrap();
    crate::commands::law_undo_reverts_push(session.log, session.canvas, CommandView::Add(stroke));
    let (log, canvas) = UndoStack::<CanvasCommand>::pushed(
        session.log,
        session.canvas,
        CommandView::Add(stroke),
    );
    assert(log.undo.drop_last() =~= session.log.undo);
    assert(canvas.idle().strokes.drop_last() =~= session.canvas.strokes);
}

/// In every session whose executed commands account for the committed
/// strokes, which `Painter` keeps so, a redo right after an undo restores
/// the log and the canvas as they were, recomposited.
pub proof fn law_redo_reverts_undo_in_session(session: SessionView)
    requires
        tracks(session.log.undo, session.canvas.strokes),
    ensures
        session.log.undo.len() > 0 ==> session.undone().redone() == (SessionView {
            canvas: session.canvas.applied(),
            log: session.log,
        }),
        session.log.undo.len() == 0 ==> session.undone() == session,
{
    if session.log.undo.len() > 0 {
        crate::commands::law_redo_reverts_undo(session.log, session.canvas);
    }
}

} // verus!
