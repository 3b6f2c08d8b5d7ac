//! The command that asks for the document to be written to a file.
use vstd::prelude::*;
use crate::command::Command;
use crate::datamodel::{DataModel, DataModelView};

verus! {

/// Asks for the document to be written to the file `filename`.
///
/// Running the command changes nothing in the document, and there is nothing
/// to take back. Whoever runs it takes a snapshot of the document and writes
/// it out.
#[derive(Debug, PartialEq)]
pub struct ExportCommand {
    pub filename: String,
}

impl View for ExportCommand {
    type V = Seq<char>;

    open spec fn view(&self) -> Seq<char> {
        self.filename@
    }
}

impl ExportCommand {
    pub fn new(filename: String) -> (cmd: Self)
        ensures
            cmd@ == filename@,
    {
        ExportCommand { filename }
    }
}

impl Command for ExportCommand {
    open spec fn applied(&self, dm: DataModelView) -> DataModelView {
        dm
    }

    open spec fn reverted(&self, dm: DataModelView) -> DataModelView {
        dm
    }

    fn execute(&self, dm: &mut DataModel) {
    }

    fn undo(&self, dm: &mut DataModel) {
    }
}

} // verus!
