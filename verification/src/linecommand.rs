//! The commands that create a line.
use vstd::prelude::*;
use crate::command::Command;
use crate::datamodel::{DataModel, DataModelView};
use crate::drawable::{Drawable, DrawableView};
use crate::line::{Line, LineView};
use crate::scalar::Scalar;

verus! {

/// Creates a line and puts it on the current page, where there is one.
#[derive(Debug, PartialEq)]
pub struct LineCommand {
    id: String,
    x1: Scalar,
    y1: Scalar,
    x2: Scalar,
    y2: Scalar,
}

impl View for LineCommand {
    type V = LineView;

    closed spec fn view(&self) -> LineView {
        LineView { id: self.id@, x1: self.x1, y1: self.y1, x2: self.x2, y2: self.y2 }
    }
}

impl LineCommand {
    pub fn new(id: String, x1: Scalar, y1: Scalar, x2: Scalar, y2: Scalar) -> (cmd: Self)
        ensures
            cmd@ == (LineView { id: id@, x1, y1, x2, y2 }),
    {
        LineCommand { id, x1, y1, x2, y2 }
    }

    /// The line that the command creates.
    pub fn line(&self) -> (line: Line)
        ensures
            line@ == self@,
    {
        Line::new(self.id.clone(), self.x1, self.y1, self.x2, self.y2)
    }
}

impl Command for LineCommand {
    open spec fn applied(&self, dm: DataModelView) -> DataModelView {
        dm.insert_node(DrawableView::Line(self@)).attach(self@.id)
    }

    open spec fn reverted(&self, dm: DataModelView) -> DataModelView {
        dm.remove_node(self@.id)
    }

    fn execute(&self, dm: &mut DataModel) {
        let mut line = Line::with_default_extent(self.id.clone());
        line.set_points(self.x1, self.y1, self.x2, self.y2);
        dm.insert_node(Drawable::Line(line));
        if let Some(page) = dm.get_current_page_mut() {
            let id = self.id.clone();
            page.add_node_id(id);
        }
    }

    fn undo(&self, dm: &mut DataModel) {
        dm.remove_node(self.id.as_str());
    }
}

/// Creates a line. The line is stored and put on no page.
#[derive(Debug, PartialEq)]
pub struct CreateLineCommand {
    id: String,
    x1: Scalar,
    y1: Scalar,
    x2: Scalar,
    y2: Scalar,
}

impl View for CreateLineCommand {
    type V = LineView;

    closed spec fn view(&self) -> LineView {
        LineView { id: self.id@, x1: self.x1, y1: self.y1, x2: self.x2, y2: self.y2 }
    }
}

impl CreateLineCommand {
    pub fn new(id: String, x1: Scalar, y1: Scalar, x2: Scalar, y2: Scalar) -> (cmd: Self)
        ensures
            cmd@ == (LineView { id: id@, x1, y1, x2, y2 }),
    {
        CreateLineCommand { id, x1, y1, x2, y2 }
    }

    /// The line that the command creates.
    pub fn line(&self) -> (line: Line)
        ensures
            line@ == self@,
    {
        Line::new(self.id.clone(), self.x1, self.y1, self.x2, self.y2)
    }
}

impl Command for CreateLineCommand {
    open spec fn applied(&self, dm: DataModelView) -> DataModelView {
        dm.insert_node(DrawableView::Line(self@))
    }

    open spec fn reverted(&self, dm: DataModelView) -> DataModelView {
        dm.remove_node(self@.id)
    }

    fn execute(&self, dm: &mut DataModel) {
        let line = Line::new(self.id.clone(), self.x1, self.y1, self.x2, self.y2);
        dm.insert_node(Drawable::Line(line));
    }

    fn undo(&self, dm: &mut DataModel) {
        dm.remove_node(self.id.as_str());
    }
}

} // verus!
