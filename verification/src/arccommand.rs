//! The commands that create an arc.
use vstd::prelude::*;
use crate::arc::{Arc, ArcView};
use crate::command::Command;
use crate::datamodel::{DataModel, DataModelView};
use crate::drawable::{Drawable, DrawableView};
use crate::scalar::Scalar;

verus! {

/// Creates an arc. The arc is stored and put on no page.
#[derive(Debug, PartialEq)]
pub struct ArcCommand {
    id: String,
    x: Scalar,
    y: Scalar,
    r: Scalar,
    angle_start: Scalar,
    angle_end: Scalar,
}

impl View for ArcCommand {
    type V = ArcView;

    closed spec fn view(&self) -> ArcView {
        ArcView {
            id: self.id@,
            x: self.x,
            y: self.y,
            r: self.r,
            angle_start: self.angle_start,
            angle_end: self.angle_end,
        }
    }
}

impl ArcCommand {
    pub fn new(
        id: String,
        x: Scalar,
        y: Scalar,
        r: Scalar,
        angle_start: Scalar,
        angle_end: Scalar,
    ) -> (cmd: Self)
        ensures
            cmd@ == (ArcView { id: id@, x, y, r, angle_start, angle_end }),
    {
        ArcCommand { id, x, y, r, angle_start, angle_end }
    }

    /// The arc that the command creates.
    pub fn arc(&self) -> (arc: Arc)
        ensures
            arc@ == self@,
    {
        Arc::new(self.id.clone(), self.x, self.y, self.r, self.angle_start, self.angle_end)
    }
}

impl Command for ArcCommand {
    open spec fn applied(&self, dm: DataModelView) -> DataModelView {
        dm.insert_node(DrawableView::Arc(self@))
    }

    open spec fn reverted(&self, dm: DataModelView) -> DataModelView {
        dm.remove_node(self@.id)
    }

    fn execute(&self, dm: &mut DataModel) {
        let arc = Arc::new(
            self.id.clone(),
            self.x,
            self.y,
            self.r,
            self.angle_start,
            self.angle_end,
        );
        dm.insert_node(Drawable::Arc(arc));
    }

    fn undo(&self, dm: &mut DataModel) {
        dm.remove_node(self.id.as_str());
    }
}

/// Creates an arc. The arc is stored and put on no page.
#[derive(Debug, PartialEq)]
pub struct CreateArcCommand {
    id: String,
    x: Scalar,
    y: Scalar,
    r: Scalar,
    angle_start: Scalar,
    angle_end: Scalar,
}

impl View for CreateArcCommand {
    type V = ArcView;

    closed spec fn view(&self) -> ArcView {
        ArcView {
            id: self.id@,
            x: self.x,
            y: self.y,
            r: self.r,
            angle_start: self.angle_start,
            angle_end: self.angle_end,
        }
    }
}

impl CreateArcCommand {
    pub fn new(
        id: String,
        x: Scalar,
        y: Scalar,
        r: Scalar,
        angle_start: Scalar,
        angle_end: Scalar,
    ) -> (cmd: Self)
        ensures
            cmd@ == (ArcView { id: id@, x, y, r, angle_start, angle_end }),
    {
        CreateArcCommand { id, x, y, r, angle_start, angle_end }
    }

    /// The arc that the command creates.
    pub fn arc(&self) -> (arc: Arc)
        ensures
            arc@ == self@,
    {
        Arc::new(self.id.clone(), self.x, self.y, self.r, self.angle_start, self.angle_end)
    }
}

impl Command for CreateArcCommand {
    open spec fn applied(&self, dm: DataModelView) -> DataModelView {
        dm.insert_node(DrawableView::Arc(self@))
    }

    open spec fn reverted(&self, dm: DataModelView) -> DataModelView {
        dm.remove_node(self@.id)
    }

    fn execute(&self, dm: &mut DataModel) {
        let arc = Arc::new(
            self.id.clone(),
            self.x,
            self.y,
            self.r,
            self.angle_start,
            self.angle_end,
        );
        dm.insert_node(Drawable::Arc(arc));
    }

    fn undo(&self, dm: &mut DataModel) {
        dm.remove_node(self.id.as_str());
    }
}

} // verus!
