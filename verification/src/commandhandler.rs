//! A history of commands kept beside the document.
use vstd::prelude::*;
use crate::command::{operations, Command, Operation, OperationView};
use crate::datamodel::DataModel;

verus! {

/// The commands that ran on a document and were not taken back, oldest
/// first. A command that was taken back is gone: there is no way to run it
/// again from the history.
#[derive(Debug, PartialEq)]
pub struct CommandHandler {
    undo_stack: Vec<Operation>,
}

impl View for CommandHandler {
    type V = Seq<OperationView>;

    closed spec fn view(&self) -> Seq<OperationView> {
        operations(self.undo_stack@)
    }
}

impl CommandHandler {
    /// An empty history.
    pub fn new() -> (handler: Self)
        ensures
            handler@ == Seq::<OperationView>::empty(),
    {
        let handler = CommandHandler { undo_stack: Vec::new() };
        assert(handler@ =~= Seq::empty());
        handler
    }

    /// Runs `cmd` on `dm` and remembers it as the newest command.
    pub fn execute(&mut self, dm: &mut DataModel, cmd: Operation)
        ensures
            final(dm)@ == cmd@.applied(old(dm)@),
            final(self)@ == old(self)@.push(cmd@),
    {
        cmd.execute(dm);
        self.undo_stack.push(cmd);
        assert(self@ =~= old(self)@.push(cmd@));
    }

    /// Takes the newest command off the history and takes it back from `dm`.
    /// Returns whether there was a command; with an empty history nothing
    /// changes.
    pub fn undo(&mut self, dm: &mut DataModel) -> (undone: bool)
        ensures
            undone == (old(self)@.len() > 0),
            undone ==> final(self)@ == old(self)@.drop_last() && final(dm)@ == old(
                self,
            )@.last().reverted(old(dm)@),
            !undone ==> final(self)@ == old(self)@ && final(dm)@ == old(dm)@,
    {
        if let Some(cmd) = self.undo_stack.pop() {
            assert(self@ =~= old(self)@.drop_last());
            cmd.undo(dm);
            true
        } else {
            false
        }
    }

    /// The history, oldest command first.
    pub fn list_commands(&self) -> (r: &Vec<Operation>)
        ensures
            operations(r@) == self@,
    {
        &self.undo_stack
    }
}

impl Default for CommandHandler {
    fn default() -> (handler: Self)
        ensures
            handler@ == Seq::<OperationView>::empty(),
    {
        CommandHandler::new()
    }
}

} // verus!
