//! Commands: reversible changes to a document.
use vstd::prelude::*;
use crate::arc::ArcView;
use crate::arccommand::{ArcCommand, CreateArcCommand};
use crate::datamodel::{DataModel, DataModelView};
use crate::drawable::DrawableView;
use crate::exportcommand::ExportCommand;
use crate::line::LineView;
use crate::linecommand::{CreateLineCommand, LineCommand};
use crate::pagecommand::{CreatePageCommand, PageCommand, PageCommandView};

verus! {

/// A change to a document that can be taken back.
///
/// A command carries the identifier of what it creates, so taking it back
/// names the same entity that running it made.
pub trait Command {
    /// The document after the command ran on `dm`.
    spec fn applied(&self, dm: DataModelView) -> DataModelView;

    /// The document after the command was taken back from `dm`.
    spec fn reverted(&self, dm: DataModelView) -> DataModelView;

    /// Runs the command.
    fn execute(&self, dm: &mut DataModel)
        ensures
            final(dm)@ == self.applied(old(dm)@),
    ;

    /// Takes the command back.
    fn undo(&self, dm: &mut DataModel)
        ensures
            final(dm)@ == self.reverted(old(dm)@),
    ;
}

/// What a command holds, as plain values. A command that creates a line or an
/// arc is described by what it creates; an export by the name of its file.
pub enum OperationView {
    Page(PageCommandView),
    Line(LineView),
    Arc(ArcView),
    CreatePage(PageCommandView),
    CreateLine(LineView),
    CreateArc(ArcView),
    Export(Seq<char>),
}

impl OperationView {
    /// The document after the command ran on `dm`.
    ///
    /// A page becomes the current page. A line or an arc is stored under its
    /// identifier; `Line` also puts the line on the current page, where there
    /// is one. An export leaves the document as it is.
    pub open spec fn applied(self, dm: DataModelView) -> DataModelView {
        match self {
            OperationView::Page(page) => dm.insert_page(page.page()),
            OperationView::CreatePage(page) => dm.insert_page(page.page()),
            OperationView::Line(line) => dm.insert_node(DrawableView::Line(line)).attach(line.id),
            OperationView::CreateLine(line) => dm.insert_node(DrawableView::Line(line)),
            OperationView::Arc(arc) => dm.insert_node(DrawableView::Arc(arc)),
            OperationView::CreateArc(arc) => dm.insert_node(DrawableView::Arc(arc)),
            OperationView::Export(_) => dm,
        }
    }

    /// The document after the command was taken back from `dm`: the entity
    /// that the command names is removed, and nothing else changes.
    pub open spec fn reverted(self, dm: DataModelView) -> DataModelView {
        match self {
            OperationView::Page(page) => dm.remove_page(page.id),
            OperationView::CreatePage(page) => dm.remove_page(page.id),
            OperationView::Line(line) => dm.remove_node(line.id),
            OperationView::CreateLine(line) => dm.remove_node(line.id),
            OperationView::Arc(arc) => dm.remove_node(arc.id),
            OperationView::CreateArc(arc) => dm.remove_node(arc.id),
            OperationView::Export(_) => dm,
        }
    }

    /// The identifier of the node that the command creates, where it creates
    /// one.
    pub open spec fn node_id(self) -> Option<Seq<char>> {
        match self {
            OperationView::Line(line) => Some(line.id),
            OperationView::CreateLine(line) => Some(line.id),
            OperationView::Arc(arc) => Some(arc.id),
            OperationView::CreateArc(arc) => Some(arc.id),
            _ => None,
        }
    }

    /// The identifier of the page that the command creates, where it creates
    /// one.
    pub open spec fn page_id(self) -> Option<Seq<char>> {
        match self {
            OperationView::Page(page) => Some(page.id),
            OperationView::CreatePage(page) => Some(page.id),
            _ => None,
        }
    }
}

/// Any one of the commands, as a history stores it.
#[derive(Debug, PartialEq)]
pub enum Operation {
    Page(PageCommand),
    Line(LineCommand),
    Arc(ArcCommand),
    CreatePage(CreatePageCommand),
    CreateLine(CreateLineCommand),
    CreateArc(CreateArcCommand),
    Export(ExportCommand),
}

impl View for Operation {
    type V = OperationView;

    open spec fn view(&self) -> OperationView {
        match self {
            Operation::Page(c) => OperationView::Page(c@),
            Operation::Line(c) => OperationView::Line(c@),
            Operation::Arc(c) => OperationView::Arc(c@),
            Operation::CreatePage(c) => OperationView::CreatePage(c@),
            Operation::CreateLine(c) => OperationView::CreateLine(c@),
            Operation::CreateArc(c) => OperationView::CreateArc(c@),
            Operation::Export(c) => OperationView::Export(c@),
        }
    }
}

/// What each command of a list holds, in order.
pub open spec fn operations(ops: Seq<Operation>) -> Seq<OperationView> {
    Seq::new(ops.len(), |i: int| ops[i]@)
}

impl Command for Operation {
    open spec fn applied(&self, dm: DataModelView) -> DataModelView {
        self@.applied(dm)
    }

    open spec fn reverted(&self, dm: DataModelView) -> DataModelView {
        self@.reverted(dm)
    }

    fn execute(&self, dm: &mut DataModel) {
        match self {
            Operation::Page(c) => c.execute(dm),
            Operation::Line(c) => c.execute(dm),
            Operation::Arc(c) => c.execute(dm),
            Operation::CreatePage(c) => c.execute(dm),
            Operation::CreateLine(c) => c.execute(dm),
            Operation::CreateArc(c) => c.execute(dm),
            Operation::Export(c) => c.execute(dm),
        }
    }

    fn undo(&self, dm: &mut DataModel) {
        match self {
            Operation::Page(c) => c.undo(dm),
            Operation::Line(c) => c.undo(dm),
            Operation::Arc(c) => c.undo(dm),
            Operation::CreatePage(c) => c.undo(dm),
            Operation::CreateLine(c) => c.undo(dm),
            Operation::CreateArc(c) => c.undo(dm),
            Operation::Export(c) => c.undo(dm),
        }
    }
}

} // verus!
