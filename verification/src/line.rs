//! Straight lines between two points.
use vstd::prelude::*;
use crate::node::{Node, NodeType};
use crate::scalar::Scalar;

verus! {

/// What a line holds, as plain values.
pub struct LineView {
    pub id: Seq<char>,
    pub x1: Scalar,
    pub y1: Scalar,
    pub x2: Scalar,
    pub y2: Scalar,
}

/// A line from `(x1, y1)` to `(x2, y2)`, in world units.
#[derive(Debug, PartialEq)]
pub struct Line {
    id: String,
    x1: Scalar,
    y1: Scalar,
    x2: Scalar,
    y2: Scalar,
}

impl View for Line {
    type V = LineView;

    closed spec fn view(&self) -> LineView {
        LineView { id: self.id@, x1: self.x1, y1: self.y1, x2: self.x2, y2: self.y2 }
    }
}

impl Node for Line {
    open spec fn spec_id(&self) -> Seq<char> {
        self@.id
    }

    open spec fn spec_node_type(&self) -> NodeType {
        NodeType::Line
    }

    fn get_id(&self) -> (id: &str) {
        self.id.as_str()
    }

    fn get_node_type(&self) -> (t: &NodeType) {
        &NodeType::Line
    }
}

impl Line {
    /// The line between the two given points.
    pub fn new(id: String, x1: Scalar, y1: Scalar, x2: Scalar, y2: Scalar) -> (line: Self)
        ensures
            line@ == (LineView { id: id@, x1, y1, x2, y2 }),
    {
        Line { id, x1, y1, x2, y2 }
    }

    /// The line that a drawing starts from: from the origin to `(50, 50)`.
    pub fn with_default_extent(id: String) -> (line: Self)
        ensures
            line@ == (LineView {
                id: id@,
                x1: Scalar::zero(),
                y1: Scalar::zero(),
                x2: Scalar::fifty(),
                y2: Scalar::fifty(),
            }),
    {
        Line {
            id,
            x1: Scalar::zero(),
            y1: Scalar::zero(),
            x2: Scalar::fifty(),
            y2: Scalar::fifty(),
        }
    }

    pub fn get_x1(&self) -> (x1: Scalar)
        ensures
            x1 == self@.x1,
    {
        self.x1
    }

    pub fn get_y1(&self) -> (y1: Scalar)
        ensures
            y1 == self@.y1,
    {
        self.y1
    }

    pub fn get_x2(&self) -> (x2: Scalar)
        ensures
            x2 == self@.x2,
    {
        self.x2
    }

    pub fn get_y2(&self) -> (y2: Scalar)
        ensures
            y2 == self@.y2,
    {
        self.y2
    }

    /// Moves both end points and keeps the identifier.
    pub fn set_points(&mut self, x1: Scalar, y1: Scalar, x2: Scalar, y2: Scalar)
        ensures
            final(self)@ == (LineView { id: old(self)@.id, x1, y1, x2, y2 }),
    {
        self.x1 = x1;
        self.y1 = y1;
        self.x2 = x2;
        self.y2 = y2;
    }
}

impl Clone for Line {
    fn clone(&self) -> (line: Self)
        ensures
            line@ == self@,
    {
        Line { id: self.id.clone(), x1: self.x1, y1: self.y1, x2: self.x2, y2: self.y2 }
    }
}

} // verus!
