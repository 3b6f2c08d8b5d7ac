//! Circular arcs.
use vstd::prelude::*;
use crate::node::{Node, NodeType};
use crate::scalar::Scalar;

verus! {

/// What an arc holds, as plain values.
pub struct ArcView {
    pub id: Seq<char>,
    pub x: Scalar,
    pub y: Scalar,
    pub r: Scalar,
    pub angle_start: Scalar,
    pub angle_end: Scalar,
}

/// An arc round the centre `(x, y)` with radius `r`, swept from `angle_start`
/// to `angle_end`, both in degrees.
#[derive(Debug, PartialEq)]
pub struct Arc {
    id: String,
    x: Scalar,
    y: Scalar,
    r: Scalar,
    angle_start: Scalar,
    angle_end: Scalar,
}

impl View for Arc {
    type V = ArcView;

    closed spec fn view(&self) -> ArcView {
        ArcView {
            id: self.id@,
            x: self.x,
            y: self.y,
            r: self.r,
            angle_start: self.angle_start,
            angle_end: self.angle_end,
        }
    }
}

impl Node for Arc {
    open spec fn spec_id(&self) -> Seq<char> {
        self@.id
    }

    open spec fn spec_node_type(&self) -> NodeType {
        NodeType::Arc
    }

    fn get_id(&self) -> (id: &str) {
        self.id.as_str()
    }

    fn get_node_type(&self) -> (t: &NodeType) {
        &NodeType::Arc
    }
}

impl Arc {
    /// The arc with the given centre, radius and angles.
    pub fn new(
        id: String,
        x: Scalar,
        y: Scalar,
        r: Scalar,
        angle_start: Scalar,
        angle_end: Scalar,
    ) -> (arc: Self)
        ensures
            arc@ == (ArcView { id: id@, x, y, r, angle_start, angle_end }),
    {
        Arc { id, x, y, r, angle_start, angle_end }
    }

    pub fn get_x(&self) -> (x: Scalar)
        ensures
            x == self@.x,
    {
        self.x
    }

    pub fn get_y(&self) -> (y: Scalar)
        ensures
            y == self@.y,
    {
        self.y
    }

    pub fn get_r(&self) -> (r: Scalar)
        ensures
            r == self@.r,
    {
        self.r
    }

    pub fn get_angle_start(&self) -> (angle: Scalar)
        ensures
            angle == self@.angle_start,
    {
        self.angle_start
    }

    pub fn get_angle_end(&self) -> (angle: Scalar)
        ensures
            angle == self@.angle_end,
    {
        self.angle_end
    }
}

impl Clone for Arc {
    fn clone(&self) -> (arc: Self)
        ensures
            arc@ == self@,
    {
        Arc {
            id: self.id.clone(),
            x: self.x,
            y: self.y,
            r: self.r,
            angle_start: self.angle_start,
            angle_end: self.angle_end,
        }
    }
}

} // verus!
