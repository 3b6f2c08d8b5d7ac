//! What every stored entity has in common: an identifier and a kind.
use vstd::prelude::*;
use crate::text::same;

verus! {

/// The kinds of entity that a document stores.
#[derive(Clone, Copy, PartialEq, Eq, Structural, Debug)]
pub enum NodeType {
    Page,
    Line,
    Arc,
}

impl NodeType {
    /// The name of the kind as it is shown: `Page`, `Line` or `Arc`.
    pub open spec fn spec_to_string(&self) -> Seq<char> {
        match self {
            NodeType::Page => "Page"@,
            NodeType::Line => "Line"@,
            NodeType::Arc => "Arc"@,
        }
    }

    /// The kind that a word of a command names: `page`, `line` or `arc`.
    pub open spec fn spec_parse(s: Seq<char>) -> Option<NodeType> {
        if s == "page"@ {
            Some(NodeType::Page)
        } else if s == "line"@ {
            Some(NodeType::Line)
        } else if s == "arc"@ {
            Some(NodeType::Arc)
        } else {
            None
        }
    }

    /// The name of the kind as it is shown.
    pub fn to_string(&self) -> (s: String)
        ensures
            s@ == self.spec_to_string(),
    {
        match self {
            NodeType::Page => "Page".to_owned(),
            NodeType::Line => "Line".to_owned(),
            NodeType::Arc => "Arc".to_owned(),
        }
    }

    /// The kind that `s` names, if it names one. The names are written in
    /// lower case.
    pub fn parse(s: &str) -> (r: Option<NodeType>)
        ensures
            r == NodeType::spec_parse(s@),
    {
        if same(s, "page") {
            Some(NodeType::Page)
        } else if same(s, "line") {
            Some(NodeType::Line)
        } else if same(s, "arc") {
            Some(NodeType::Arc)
        } else {
            None
        }
    }
}

/// An entity of the document: it has an identifier and a kind.
pub trait Node {
    /// The identifier of the entity.
    spec fn spec_id(&self) -> Seq<char>;

    /// The kind of the entity.
    spec fn spec_node_type(&self) -> NodeType;

    /// The identifier of the entity.
    fn get_id(&self) -> (id: &str)
        ensures
            id@ == self.spec_id(),
    ;

    /// The kind of the entity.
    fn get_node_type(&self) -> (t: &NodeType)
        ensures
            *t == self.spec_node_type(),
    ;
}

} // verus!
