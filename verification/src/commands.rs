//! The commands of the painter: the reversible operations on a
//! `PaintCanvas` that the undo stack records.

use vstd::prelude::*;
use crate::paint_canvas::{strokes_of, CanvasView, DrawnPath, PaintCanvas, Stroke};
use crate::undo_stack::{Command, LogView, UndoStack};

verus! {

/// Command that adds a path to a `PaintCanvas`.
pub struct AddPath {
    path: DrawnPath,
}

impl View for AddPath {
    type V = Stroke;

    closed spec fn view(&self) -> Stroke {
        self.path@
    }
}

impl AddPath {
    pub fn new(path: DrawnPath) -> (command: Self)
        ensures
            command@ == path@,
    {
        Self { path }
    }
}

impl Command for AddPath {
    type Target = PaintCanvas;

    open spec fn usable(target: &PaintCanvas) -> bool {
        target.wf()
    }

    open spec fn ready(command: Stroke) -> bool {
        true
    }

    /// The stroke becomes the newest committed one and the canvas is
    /// recomposited.
    open spec fn executed(command: Stroke, target: CanvasView) -> (Stroke, CanvasView) {
        (command, target.with_stroke(command).applied())
    }

    /// The newest committed stroke is removed and the canvas is
    /// recomposited.
    open spec fn unexecuted(command: Stroke, target: CanvasView) -> (Stroke, CanvasView) {
        (command, target.without_last().applied())
    }

    fn execute(&mut self, target: &mut PaintCanvas) {
        target.add_path(self.path.clone());
        target.apply();
    }

    fn unexecute(&mut self, target: &mut PaintCanvas) {
        target.pop_path();
        target.apply();
    }
}

/// Command that clears all paths of a `PaintCanvas`. While executed it holds
/// the paths it removed.
pub struct ClearPaths {
    paths: Vec<DrawnPath>,
}

impl View for ClearPaths {
    type V = Seq<Stroke>;

    closed spec fn view(&self) -> Seq<Stroke> {
        strokes_of(self.paths@)
    }
}

impl ClearPaths {
    pub fn new() -> (command: Self)
        ensures
            command@ == Seq::<Stroke>::empty(),
    {
        let command = Self { paths: Vec::new() };
        assert(command@ =~= Seq::<Stroke>::empty());
        command
    }
}

impl Command for ClearPaths {
    type Target = PaintCanvas;

    open spec fn usable(target: &PaintCanvas) -> bool {
        target.wf()
    }

    /// The command holds no strokes that a capture would overwrite.
    open spec fn ready(command: Seq<Stroke>) -> bool {
        command.len() == 0
    }

    /// The command captures the committed strokes; the canvas is left with
    /// none and is recomposited.
    open spec fn executed(command: Seq<Stroke>, target: CanvasView) -> (Seq<Stroke>, CanvasView) {
        (target.strokes, target.with_strokes(Seq::empty()).applied())
    }

    /// The captured strokes become the committed ones again, in their order,
    /// and the canvas is recomposited; the command holds none.
    open spec fn unexecuted(command: Seq<Stroke>, target: CanvasView) -> (
        Seq<Stroke>,
        CanvasView,
    ) {
        (Seq::empty(), target.with_strokes(command).applied())
    }

    fn execute(&mut self, target: &mut PaintCanvas) {
        self.paths = target.clear_all();
    }

    fn unexecute(&mut self, target: &mut PaintCanvas) {
        let mut paths: Vec<DrawnPath> = Vec::new();
        std::mem::swap(&mut self.paths, &mut paths);
        assert(self@ =~= Seq::<Stroke>::empty());
        target.restore_all(paths);
    }
}

/// What a command of the painter is, as plain values.
#[verifier::ext_equal]
pub enum CommandView {
    /// Adds the stroke.
    Add(Stroke),
    /// Clears the canvas; holds the strokes it removed.
    Clear(Seq<Stroke>),
}

/// The commands of the painter.
pub enum CanvasCommand {
    AddPath(AddPath),
    ClearPaths(ClearPaths),
}

impl View for CanvasCommand {
    type V = CommandView;

    open spec fn view(&self) -> CommandView {
        match self {
            CanvasCommand::AddPath(command) => CommandView::Add(command@),
            CanvasCommand::ClearPaths(command) => CommandView::Clear(command@),
        }
    }
}

impl Command for CanvasCommand {
    type Target = PaintCanvas;

    open spec fn usable(target: &PaintCanvas) -> bool {
        target.wf()
    }

    open spec fn ready(command: CommandView) -> bool {
        match command {
            CommandView::Add(stroke) => AddPath::ready(stroke),
            CommandView::Clear(captured) => ClearPaths::ready(captured),
        }
    }

    open spec fn executed(command: CommandView, target: CanvasView) -> (CommandView, CanvasView) {
        match command {
            CommandView::Add(stroke) => {
                let (done, after) = AddPath::executed(stroke, target);
                (CommandView::Add(done), after)
            },
            CommandView::Clear(captured) => {
                let (done, after) = ClearPaths::executed(captured, target);
                (CommandView::Clear(done), after)
            },
        }
    }

    open spec fn unexecuted(command: CommandView, target: CanvasView) -> (
        CommandView,
        CanvasView,
    ) {
        match command {
            CommandView::Add(stroke) => {
                let (reversed, after) = AddPath::unexecuted(stroke, target);
                (CommandView::Add(reversed), after)
            },
            CommandView::Clear(captured) => {
                let (reversed, after) = ClearPaths::unexecuted(captured, target);
                (CommandView::Clear(reversed), after)
            },
        }
    }

    fn execute(&mut self, target: &mut PaintCanvas) {
        match self {
            CanvasCommand::AddPath(command) => command.execute(target),
            CanvasCommand::ClearPaths(command) => command.execute(target),
        }
    }

    fn unexecute(&mut self, target: &mut PaintCanvas) {
        match self {
            CanvasCommand::AddPath(command) => command.unexecute(target),
            CanvasCommand::ClearPaths(command) => command.unexecute(target),
        }
    }
}

impl CommandView {
    /// The committed strokes are what executing this command left: an added
    /// stroke is the newest of them, and after a clear there are none.
    pub open spec fn accounts_for(self, strokes: Seq<Stroke>) -> bool {
        match self {
            CommandView::Add(stroke) => strokes.len() > 0 && strokes.last() == stroke,
            CommandView::Clear(captured) => strokes.len() == 0,
        }
    }

    /// The committed strokes before this command was executed, given those
    /// it left.
    pub open spec fn strokes_before(self, strokes: Seq<Stroke>) -> Seq<Stroke> {
        match self {
            CommandView::Add(stroke) => strokes.drop_last(),
            CommandView::Clear(captured) => captured,
        }
    }
}

/// The executed commands account for the committed strokes: the newest one
/// left them as they are, and the ones before it account for what the strokes
/// were before it.
pub open spec fn tracks(undo: Seq<CommandView>, strokes: Seq<Stroke>) -> bool
    decreases undo.len(),
{
    undo.len() > 0 ==> {
        &&& undo.last().accounts_for(strokes)
        &&& tracks(undo.drop_last(), undo.last().strokes_before(strokes))
    }
}

/// Every command leaves the canvas recomposited: the committed surface shows
/// exactly the committed strokes and the preview is clear.
pub proof fn law_commands_recomposite(command: CommandView, target: CanvasView)
    ensures
        CanvasCommand::executed(command, target).1 == CanvasCommand::executed(
            command,
            target,
        ).1.applied(),
        CanvasCommand::unexecuted(command, target).1 == CanvasCommand::unexecuted(
            command,
            target,
        ).1.applied(),
        CanvasCommand::executed(command, target).1.is_composited(),
        CanvasCommand::unexecuted(command, target).1.is_composited(),
{
}

/// An undo right after a push takes the canvas back to what it was before
/// the push, recomposited: the same committed strokes, and with them the same
/// committed pixels. The executed commands are those from before the push.
/// This holds of a command that adds a path and of one that clears the
/// canvas.
pub proof fn law_undo_reverts_push(
    log: LogView<CommandView>,
    target: CanvasView,
    command: CommandView,
)
    requires
        CanvasCommand::ready(command),
    ensures
        ({
            let (pushed_log, pushed_target) = UndoStack::<CanvasCommand>::pushed(
                log,
                target,
                command,
            );
            let (undone_log, undone_target) = UndoStack::<CanvasCommand>::undone(
                pushed_log,
                pushed_target,
            );
            &&& undone_target == target.applied()
            &&& undone_target.strokes == target.strokes
            &&& target.is_composited() ==> undone_target.committed == target.committed
            &&& undone_log.undo == log.undo
        }),
{
    let (pushed_log, pushed_target) = UndoStack::<CanvasCommand>::pushed(log, target, command);
    let (undone_log, undone_target) = UndoStack::<CanvasCommand>::undone(pushed_log, pushed_target);
    assert(pushed_log.undo.drop_last() =~= log.undo);
    match command {
        CommandView::Add(stroke) => {
            assert(target.strokes.push(stroke).drop_last() =~= target.strokes);
        },
        CommandView::Clear(captured) => {},
    }
}

/// A redo right after an undo takes the log and the canvas back to what they
/// were before the undo, where the newest executed command accounts for the
/// committed strokes: the log is the same, and the canvas is the same,
/// recomposited.
pub proof fn law_redo_reverts_undo(log: LogView<CommandView>, target: CanvasView)
    requires
        log.undo.len() > 0,
        log.undo.last().accounts_for(target.strokes),
    ensures
        ({
            let (undone_log, undone_target) = UndoStack::<CanvasCommand>::undone(log, target);
            let (redone_log, redone_target) = UndoStack::<CanvasCommand>::redone(
                undone_log,
                undone_target,
            );
            &&& redone_log == log
            &&& redone_target == target.applied()
            &&& redone_target.strokes == target.strokes
            &&& target.is_composited() ==> redone_target.committed == target.committed
        }),
{
    let (undone_log, undone_target) = UndoStack::<CanvasCommand>::undone(log, target);
    let (redone_log, redone_target) = UndoStack::<CanvasCommand>::redone(undone_log, undone_target);
    assert(undone_log.redo.drop_last() =~= log.redo);
    assert(log.undo.drop_last().push(log.undo.last()) =~= log.undo);
    match log.undo.last() {
        CommandView::Add(stroke) => {
            assert(target.strokes.drop_last().push(stroke) =~= target.strokes);
        },
        CommandView::Clear(captured) => {
            assert(target.strokes =~= Seq::<Stroke>::empty());
        },
    }
    assert(redone_log.undo =~= log.undo);
    assert(redone_log.redo =~= log.redo);
}

/// Push, undo and redo keep the executed commands accounting for the
/// committed strokes. So in a session in which the committed strokes change
/// through the log alone, every undo can be reverted by a redo.
pub proof fn law_log_keeps_track(
    log: LogView<CommandView>,
    target: CanvasView,
    command: CommandView,
)
    requires
        tracks(log.undo, target.strokes),
    ensures
        CanvasCommand::ready(command) ==> tracks(
            UndoStack::<CanvasCommand>::pushed(log, target, command).0.undo,
            UndoStack::<CanvasCommand>::pushed(log, target, command).1.strokes,
        ),
        tracks(
            UndoStack::<CanvasCommand>::undone(log, target).0.undo,
            UndoStack::<CanvasCommand>::undone(log, target).1.strokes,
        ),
        (forall|i: int| 0 <= i < log.redo.len() ==> CanvasCommand::ready(#[trigger] log.redo[i]))
            ==> tracks(
            UndoStack::<CanvasCommand>::redone(log, target).0.undo,
            UndoStack::<CanvasCommand>::redone(log, target).1.strokes,
        ),
{
    if CanvasCommand::ready(command) {
        lemma_execution_tracks(log.undo, target, command);
    }
    if log.redo.len() > 0 && CanvasCommand::ready(log.redo.last()) {
        lemma_execution_tracks(log.undo, target, log.redo.last());
    }
}

/// Executing a ready command on a canvas whose strokes the executed commands
/// account for leaves the commands, with this one as the newest, accounting
/// for the strokes.
proof fn lemma_execution_tracks(undo: Seq<CommandView>, target: CanvasView, command: CommandView)
    requires
        tracks(undo, target.strokes),
        CanvasCommand::ready(command),
    ensures
        tracks(
            undo.push(CanvasCommand::executed(command, target).0),
            CanvasCommand::executed(command, target).1.strokes,
        ),
{
    let (done, after) = CanvasCommand::executed(command, target);
    assert(undo.push(done).drop_last() =~= undo);
    match command {
        CommandView::Add(stroke) => {
            assert(target.strokes.push(stroke).drop_last() =~= target.strokes);
        },
        CommandView::Clear(captured) => {},
    }
}

/// The log and the canvas after `commands` have been pushed one after
/// another, the first of them first.
pub open spec fn pushed_all(
    log: LogView<CommandView>,
    target: CanvasView,
    commands: Seq<CommandView>,
) -> (LogView<CommandView>, CanvasView)
    decreases commands.len(),
{
    if commands.len() == 0 {
        (log, target)
    } else {
        let (before_log, before_target) = pushed_all(log, target, commands.drop_last());
        UndoStack::<CanvasCommand>::pushed(before_log, before_target, commands.last())
    }
}

/// The log and the canvas after `count` undos in a row.
pub open spec fn undone_times(log: LogView<CommandView>, target: CanvasView, count: nat) -> (
    LogView<CommandView>,
    CanvasView,
)
    decreases count,
{
    if count == 0 {
        (log, target)
    } else {
        let (after_log, after_target) = UndoStack::<CanvasCommand>::undone(log, target);
        undone_times(after_log, after_target, (count - 1) as nat)
    }
}

/// Commands are reversed in the opposite order of their execution: after any
/// number of pushes, undoing `count` times leaves the executed commands and
/// the committed strokes as they were when the last `count` commands had not
/// been pushed yet. Undoing as often as was pushed leads back to the start.
pub proof fn law_undo_is_lifo(
    log: LogView<CommandView>,
    target: CanvasView,
    commands: Seq<CommandView>,
    count: nat,
)
    requires
        count <= commands.len(),
        forall|i: int| 0 <= i < commands.len() ==> CanvasCommand::ready(#[trigger] commands[i]),
    ensures
        ({
            let (pushed_log, pushed_target) = pushed_all(log, target, commands);
            let (earlier_log, earlier_target) = pushed_all(
                log,
                target,
                commands.take(commands.len() - count),
            );
            let (undone_log, undone_target) = undone_times(pushed_log, pushed_target, count);
            &&& undone_log.undo == earlier_log.undo
            &&& undone_target.strokes == earlier_target.strokes
            &&& count > 0 ==> undone_target.is_composited()
        }),
        count == commands.len() ==> {
            let (pushed_log, pushed_target) = pushed_all(log, target, commands);
            &&& undone_times(pushed_log, pushed_target, count).0.undo == log.undo
            &&& undone_times(pushed_log, pushed_target, count).1.strokes == target.strokes
        },
    decreases count,
{
    let len = commands.len() as int;
    if count == 0 {
        assert(commands.take(len) =~= commands);
    } else {
        let before = commands.drop_last();
        let (before_log, before_target) = pushed_all(log, target, before);
        let (pushed_log, pushed_target) = pushed_all(log, target, commands);
        let (after_log, after_target) = UndoStack::<CanvasCommand>::undone(pushed_log, pushed_target);
        law_undo_reverts_push(before_log, before_target, commands.last());
        lemma_undo_reads_strokes(
            after_log,
            after_target,
            before_log,
            before_target,
            (count - 1) as nat,
        );
        assert forall|i: int| 0 <= i < before.len() implies CanvasCommand::ready(
            #[trigger] before[i],
        ) by {
            assert(before[i] == commands[i]);
        }
        law_undo_is_lifo(log, target, before, (count - 1) as nat);
        assert(before.take(before.len() - (count - 1)) =~= commands.take(len - count));
        lemma_undone_is_composited(after_log, after_target, (count - 1) as nat);
    }
    if count == commands.len() {
        assert(commands.take(0) =~= Seq::<CommandView>::empty());
    }
}

/// The log and the canvas after `count` redos in a row.
pub open spec fn redone_times(log: LogView<CommandView>, target: CanvasView, count: nat) -> (
    LogView<CommandView>,
    CanvasView,
)
    decreases count,
{
    if count == 0 {
        (log, target)
    } else {
        let (after_log, after_target) = UndoStack::<CanvasCommand>::redone(log, target);
        redone_times(after_log, after_target, (count - 1) as nat)
    }
}

/// Commands are executed again in the opposite order of their reversal:
/// where the executed commands account for the committed strokes, `count`
/// undos followed by `count` redos restore the log and the canvas as they
/// were, recomposited.
pub proof fn law_redo_is_lifo(log: LogView<CommandView>, target: CanvasView, count: nat)
    requires
        tracks(log.undo, target.strokes),
        count <= log.undo.len(),
    ensures
        ({
            let (undone_log, undone_target) = undone_times(log, target, count);
            let (redone_log, redone_target) = redone_times(undone_log, undone_target, count);
            &&& redone_log == log
            &&& redone_target.strokes == target.strokes
            &&& count > 0 ==> redone_target == target.applied()
        }),
    decreases count,
{
    if count > 0 {
        let (after_log, after_target) = UndoStack::<CanvasCommand>::undone(log, target);
        law_log_keeps_track(log, target, CommandView::Clear(Seq::empty()));
        law_commands_recomposite(log.undo.last(), target);
        law_redo_is_lifo(after_log, after_target, (count - 1) as nat);
        let (undone_log, undone_target) = undone_times(log, target, count);
        lemma_one_more_redo(undone_log, undone_target, (count - 1) as nat);
        law_redo_reverts_undo(log, target);
    }
}

/// One more redo at the end of a run is one more redo after the run.
proof fn lemma_one_more_redo(log: LogView<CommandView>, target: CanvasView, count: nat)
    ensures
        redone_times(log, target, count + 1) == UndoStack::<CanvasCommand>::redone(
            redone_times(log, target, count).0,
            redone_times(log, target, count).1,
        ),
    decreases count,
{
    let (after_log, after_target) = UndoStack::<CanvasCommand>::redone(log, target);
    assert(redone_times(log, target, count + 1) == redone_times(
        after_log,
        after_target,
        count,
    ));
    if count > 0 {
        lemma_one_more_redo(after_log, after_target, (count - 1) as nat);
        assert(((count - 1) as nat) + 1 == count);
        assert(redone_times(log, target, count) == redone_times(
            after_log,
            after_target,
            (count - 1) as nat,
        ));
    } else {
        assert(redone_times(after_log, after_target, 0) == (after_log, after_target));
        assert(redone_times(log, target, 0) == (log, target));
    }
}

/// What a run of undos leaves of the executed commands and of the committed
/// strokes depends on nothing but these two.
proof fn lemma_undo_reads_strokes(
    log: LogView<CommandView>,
    target: CanvasView,
    other_log: LogView<CommandView>,
    other_target: CanvasView,
    count: nat,
)
    requires
        log.undo == other_log.undo,
        target.strokes == other_target.strokes,
    ensures
        undone_times(log, target, count).0.undo == undone_times(
            other_log,
            other_target,
            count,
        ).0.undo,
        undone_times(log, target, count).1.strokes == undone_times(
            other_log,
            other_target,
            count,
        ).1.strokes,
    decreases count,
{
    if count > 0 {
        let (after_log, after_target) = UndoStack::<CanvasCommand>::undone(log, target);
        let (other_after_log, other_after_target) = UndoStack::<CanvasCommand>::undone(
            other_log,
            other_target,
        );
        lemma_undo_reads_strokes(
            after_log,
            after_target,
            other_after_log,
            other_after_target,
            (count - 1) as nat,
        );
    }
}

/// A run of undos keeps a composited canvas composited.
proof fn lemma_undone_is_composited(log: LogView<CommandView>, target: CanvasView, count: nat)
    requires
        target.is_composited(),
    ensures
        undone_times(log, target, count).1.is_composited(),
    decreases count,
{
    if count > 0 {
        let (after_log, after_target) = UndoStack::<CanvasCommand>::undone(log, target);
        if log.undo.len() > 0 {
            law_commands_recomposite(log.undo.last(), target);
        }
        lemma_undone_is_composited(after_log, after_target, (count - 1) as nat);
    }
}

} // verus!
