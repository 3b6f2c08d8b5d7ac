//! Pages: named containers that list the nodes drawn on them.
use vstd::prelude::*;
use crate::node::{Node, NodeType};
use crate::text::{clone_texts, texts};

verus! {

/// What a page holds, as plain values.
pub struct PageView {
    pub id: Seq<char>,
    pub name: Seq<char>,
    pub description: Seq<char>,
    /// The identifiers of the nodes on the page, in the order in which they
    /// were added.
    pub node_ids: Seq<Seq<char>>,
    /// The identifiers that are highlighted at the moment. Nothing ties them
    /// to nodes that exist.
    pub selected_ids: Seq<Seq<char>>,
}

impl PageView {
    /// The page as it is created: without nodes and without a selection.
    pub open spec fn blank(id: Seq<char>, name: Seq<char>, description: Seq<char>) -> PageView {
        PageView { id, name, description, node_ids: Seq::empty(), selected_ids: Seq::empty() }
    }

    /// The page with one more node at the end of its list.
    pub open spec fn with_node(self, node_id: Seq<char>) -> PageView {
        PageView { node_ids: self.node_ids.push(node_id), ..self }
    }

    /// The page as it is kept on disk: the selection belongs to a sitting and
    /// is not kept.
    pub open spec fn persisted(self) -> PageView {
        self.with_selection(Seq::empty())
    }

    /// The page with another selection.
    pub open spec fn with_selection(self, ids: Seq<Seq<char>>) -> PageView {
        PageView { selected_ids: ids, ..self }
    }
}

/// A page of the document.
#[derive(Debug, PartialEq)]
pub struct Page {
    id: String,
    name: String,
    description: String,
    node_ids: Vec<String>,
    selected_ids: Vec<String>,
}

impl View for Page {
    type V = PageView;

    closed spec fn view(&self) -> PageView {
        PageView {
            id: self.id@,
            name: self.name@,
            description: self.description@,
            node_ids: texts(self.node_ids@),
            selected_ids: texts(self.selected_ids@),
        }
    }
}

impl Node for Page {
    open spec fn spec_id(&self) -> Seq<char> {
        self@.id
    }

    open spec fn spec_node_type(&self) -> NodeType {
        NodeType::Page
    }

    fn get_id(&self) -> (id: &str) {
        self.id.as_str()
    }

    fn get_node_type(&self) -> (t: &NodeType) {
        &NodeType::Page
    }
}

impl Page {
    /// A page without nodes and without a selection.
    pub fn new(id: String, name: String, content: String) -> (page: Self)
        ensures
            page@ == PageView::blank(id@, name@, content@),
    {
        let page = Page {
            id,
            name,
            description: content,
            node_ids: Vec::new(),
            selected_ids: Vec::new(),
        };
        assert(page@.node_ids =~= Seq::empty());
        assert(page@.selected_ids =~= Seq::empty());
        page
    }

    /// A page with the given contents.
    pub fn from_parts(
        id: String,
        name: String,
        description: String,
        node_ids: Vec<String>,
        selected_ids: Vec<String>,
    ) -> (page: Self)
        ensures
            page@ == (PageView {
                id: id@,
                name: name@,
                description: description@,
                node_ids: texts(node_ids@),
                selected_ids: texts(selected_ids@),
            }),
    {
        Page { id, name, description, node_ids, selected_ids }
    }

    /// The name of the page.
    pub fn get_name(&self) -> (name: &str)
        ensures
            name@ == self@.name,
    {
        self.name.as_str()
    }

    /// The description of the page.
    pub fn get_description(&self) -> (description: &str)
        ensures
            description@ == self@.description,
    {
        self.description.as_str()
    }

    /// Puts a node at the end of the page's list of nodes.
    pub fn add_node_id(&mut self, node_id: String)
        ensures
            final(self)@ == old(self)@.with_node(node_id@),
    {
        self.node_ids.push(node_id);
        assert(self@.node_ids =~= old(self)@.node_ids.push(node_id@));
    }

    /// The identifiers of the nodes on the page, in the order in which they
    /// were added.
    pub fn get_node_ids(&self) -> (ids: &Vec<String>)
        ensures
            texts(ids@) == self@.node_ids,
    {
        &self.node_ids
    }

    /// Replaces the selection.
    pub fn set_selected_ids(&mut self, node_ids: Vec<String>)
        ensures
            final(self)@ == old(self)@.with_selection(texts(node_ids@)),
    {
        self.selected_ids = node_ids;
    }

    /// A copy of the page without its selection.
    pub fn persisted(&self) -> (page: Page)
        ensures
            page@ == self@.persisted(),
    {
        let page = Page {
            id: self.id.clone(),
            name: self.name.clone(),
            description: self.description.clone(),
            node_ids: clone_texts(&self.node_ids),
            selected_ids: Vec::new(),
        };
        assert(page@.selected_ids =~= Seq::empty());
        page
    }

    /// The identifiers that are highlighted at the moment.
    pub fn get_selected_ids(&self) -> (ids: &Vec<String>)
        ensures
            texts(ids@) == self@.selected_ids,
    {
        &self.selected_ids
    }
}

impl Clone for Page {
    fn clone(&self) -> (page: Self)
        ensures
            page@ == self@,
    {
        Page {
            id: self.id.clone(),
            name: self.name.clone(),
            description: self.description.clone(),
            node_ids: clone_texts(&self.node_ids),
            selected_ids: clone_texts(&self.selected_ids),
        }
    }
}

} // verus!
