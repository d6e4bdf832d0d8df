//! A command log with undo and redo, independent of what the commands do.

use vstd::prelude::*;

verus! {

/// A reversible operation on a target.
///
/// What a command does is given by `executed` and `unexecuted`, over the
/// views of the command and of its target; `execute` and `unexecute` carry
/// it out.
pub trait Command: View + Sized {
    /// What the command acts on.
    type Target: View;

    /// The target is in a state on which commands can act. Commands keep it so.
    spec fn usable(target: &Self::Target) -> bool;

    /// The command may be executed: it is new, or its last execution has been
    /// reversed.
    spec fn ready(command: Self::V) -> bool;

    /// The command and the target after the command has been executed.
    spec fn executed(command: Self::V, target: <Self::Target as View>::V) -> (
        Self::V,
        <Self::Target as View>::V,
    );

    /// The command and the target after the command has been reversed.
    spec fn unexecuted(command: Self::V, target: <Self::Target as View>::V) -> (
        Self::V,
        <Self::Target as View>::V,
    );

    /// Applies the command to the target.
    fn execute(&mut self, target: &mut Self::Target)
        requires
            Self::usable(old(target)),
            Self::ready(old(self)@),
        ensures
            Self::usable(final(target)),
            (final(self)@, final(target)@) == Self::executed(old(self)@, old(target)@),
    ;

    /// Reverses the command on the target. The command is ready again.
    fn unexecute(&mut self, target: &mut Self::Target)
        requires
            Self::usable(old(target)),
        ensures
            Self::usable(final(target)),
            Self::ready(final(self)@),
            (final(self)@, final(target)@) == Self::unexecuted(old(self)@, old(target)@),
    ;
}

/// What a command log holds: the executed commands, oldest first, and the
/// reversed ones, the one reversed last at the end.
#[verifier::ext_equal]
pub struct LogView<M> {
    pub undo: Seq<M>,
    pub redo: Seq<M>,
}

/// The log of executed commands, with the commands that were undone and can
/// be redone.
pub struct UndoStack<C: Command> {
    undo_stack: Vec<C>,
    redo_stack: Vec<C>,
}

impl<C: Command> View for UndoStack<C> {
    type V = LogView<C::V>;

    closed spec fn view(&self) -> LogView<C::V> {
        LogView {
            undo: self.undo_stack@.map_values(|c: C| c@),
            redo: self.redo_stack@.map_values(|c: C| c@),
        }
    }
}

impl<C: Command> UndoStack<C> {
    /// Every command that can be redone is ready to be executed.
    pub open spec fn wf(&self) -> bool {
        forall|i: int| 0 <= i < self@.redo.len() ==> C::ready(#[trigger] self@.redo[i])
    }

    /// The log and the target after `command` has been pushed: the command
    /// is executed and becomes the newest executed one, and nothing is left
    /// to redo.
    pub open spec fn pushed(
        log: LogView<C::V>,
        target: <C::Target as View>::V,
        command: C::V,
    ) -> (LogView<C::V>, <C::Target as View>::V) {
        let (done, after) = C::executed(command, target);
        (LogView { undo: log.undo.push(done), redo: Seq::empty() }, after)
    }

    /// The log and the target after an undo: with no executed command,
    /// nothing changes; else the newest one is reversed and moves to the
    /// commands that can be redone.
    pub open spec fn undone(log: LogView<C::V>, target: <C::Target as View>::V) -> (
        LogView<C::V>,
        <C::Target as View>::V,
    ) {
        if log.undo.len() == 0 {
            (log, target)
        } else {
            let (reversed, after) = C::unexecuted(log.undo.last(), target);
            (LogView { undo: log.undo.drop_last(), redo: log.redo.push(reversed) }, after)
        }
    }

    /// The log and the target after a redo: with nothing to redo, nothing
    /// changes; else the command reversed last is executed again and moves
    /// back to the executed ones.
    pub open spec fn redone(log: LogView<C::V>, target: <C::Target as View>::V) -> (
        LogView<C::V>,
        <C::Target as View>::V,
    ) {
        if log.redo.len() == 0 {
            (log, target)
        } else {
            let (done, after) = C::executed(log.redo.last(), target);
            (LogView { undo: log.undo.push(done), redo: log.redo.drop_last() }, after)
        }
    }

    /// An empty log.
    pub fn new() -> (log: Self)
        ensures
            log.wf(),
            log@.undo.len() == 0,
            log@.redo.len() == 0,
    {
        Self { undo_stack: Vec::new(), redo_stack: Vec::new() }
    }

    /// Reverses the newest executed command and keeps it for redo. With no
    /// executed command, does nothing.
    pub fn undo(&mut self, target: &mut C::Target)
        requires
            old(self).wf(),
            C::usable(old(target)),
        ensures
            final(self).wf(),
            C::usable(final(target)),
            (final(self)@, final(target)@) == Self::undone(old(self)@, old(target)@),
    {
        match self.undo_stack.pop() {
            Some(mut command) => {
                command.unexecute(target);
                self.redo_stack.push(command);
                proof {
                    assert(self@.undo =~= old(self)@.undo.drop_last());
                    assert(self@.redo =~= old(self)@.redo.push(command@));
                    assert forall|i: int| 0 <= i < self@.redo.len() implies C::ready(
                        #[trigger] self@.redo[i],
                    ) by {
                        if i < old(self)@.redo.len() {
                            assert(self@.redo[i] == old(self)@.redo[i]);
                        }
                    }
                }
            },
            None => {},
        }
    }

    /// Executes again the command that was reversed last and moves it back to
    /// the executed ones. With nothing to redo, does nothing.
    pub fn redo(&mut self, target: &mut C::Target)
        requires
            old(self).wf(),
            C::usable(old(target)),
        ensures
            final(self).wf(),
            C::usable(final(target)),
            (final(self)@, final(target)@) == Self::redone(old(self)@, old(target)@),
    {
        match self.redo_stack.pop() {
            Some(mut command) => {
                proof {
                    assert(command@ == old(self)@.redo.last());
                }
                command.execute(target);
                self.undo_stack.push(command);
                proof {
                    assert(self@.redo =~= old(self)@.redo.drop_last());
                    assert(self@.undo =~= old(self)@.undo.push(command@));
                    assert forall|i: int| 0 <= i < self@.redo.len() implies C::ready(
                        #[trigger] self@.redo[i],
                    ) by {
                        assert(self@.redo[i] == old(self)@.redo[i]);
                    }
                }
            },
            None => {},
        }
    }

    /// Executes `command` and makes it the newest executed command. The
    /// commands that could be redone are discarded.
    pub fn push(&mut self, command: C, target: &mut C::Target)
        requires
            old(self).wf(),
            C::usable(old(target)),
            C::ready(command@),
        ensures
            final(self).wf(),
            C::usable(final(target)),
            (final(self)@, final(target)@) == Self::pushed(old(self)@, old(target)@, command@),
    {
        let mut command = command;
        command.execute(target);
        self.undo_stack.push(command);
        self.redo_stack.clear();
        proof {
            assert(self@.undo =~= old(self)@.undo.push(command@));
            assert(self@.redo =~= Seq::<C::V>::empty());
        }
    }
}

/// After a push nothing is left to redo, however many commands had been
/// undone before it: a redo that follows changes neither the log nor the
/// target.
pub proof fn law_push_discards_redo<C: Command>(
    log: LogView<C::V>,
    target: <C::Target as View>::V,
    command: C::V,
)
    ensures
        UndoStack::<C>::pushed(log, target, command).0.redo.len() == 0,
        ({
            let (pushed_log, pushed_target) = UndoStack::<C>::pushed(log, target, command);
            UndoStack::<C>::redone(pushed_log, pushed_target) == (pushed_log, pushed_target)
        }),
        ({
            let (undone_log, undone_target) = UndoStack::<C>::undone(log, target);
            let (pushed_log, pushed_target) = UndoStack::<C>::pushed(
                undone_log,
                undone_target,
                command,
            );
            UndoStack::<C>::redone(pushed_log, pushed_target) == (pushed_log, pushed_target)
        }),
{
}

} // verus!
