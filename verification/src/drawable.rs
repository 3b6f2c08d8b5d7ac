//! The closed set of things that can be drawn on a page.
use vstd::prelude::*;
use crate::arc::{Arc, ArcView};
use crate::line::{Line, LineView};
use crate::node::{Node, NodeType};

verus! {

/// What a drawable node holds, as plain values.
pub enum DrawableView {
    Line(LineView),
    Arc(ArcView),
}

impl DrawableView {
    /// The identifier of the node.
    pub open spec fn id(self) -> Seq<char> {
        match self {
            DrawableView::Line(line) => line.id,
            DrawableView::Arc(arc) => arc.id,
        }
    }

    /// The kind of the node.
    pub open spec fn node_type(self) -> NodeType {
        match self {
            DrawableView::Line(_) => NodeType::Line,
            DrawableView::Arc(_) => NodeType::Arc,
        }
    }
}

/// A node that can be drawn: a line or an arc. The variant is the node's
/// kind, so the two cannot disagree.
#[derive(Debug, PartialEq)]
pub enum Drawable {
    Line(Line),
    Arc(Arc),
}

impl View for Drawable {
    type V = DrawableView;

    open spec fn view(&self) -> DrawableView {
        match self {
            Drawable::Line(line) => DrawableView::Line(line@),
            Drawable::Arc(arc) => DrawableView::Arc(arc@),
        }
    }
}

impl Node for Drawable {
    open spec fn spec_id(&self) -> Seq<char> {
        self@.id()
    }

    open spec fn spec_node_type(&self) -> NodeType {
        self@.node_type()
    }

    fn get_id(&self) -> (id: &str) {
        match self {
            Drawable::Line(line) => line.get_id(),
            Drawable::Arc(arc) => arc.get_id(),
        }
    }

    fn get_node_type(&self) -> (t: &NodeType) {
        match self {
            Drawable::Line(line) => line.get_node_type(),
            Drawable::Arc(arc) => arc.get_node_type(),
        }
    }
}

impl Clone for Drawable {
    fn clone(&self) -> (node: Self)
        ensures
            node@ == self@,
    {
        match self {
            Drawable::Line(line) => Drawable::Line(line.clone()),
            Drawable::Arc(arc) => Drawable::Arc(arc.clone()),
        }
    }
}

} // verus!
