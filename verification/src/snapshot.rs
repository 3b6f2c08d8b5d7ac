//! The form in which a document is kept outside the program.
use vstd::prelude::*;
use crate::datamodel::DataModelView;
use crate::drawable::{Drawable, DrawableView};
use crate::page::{Page, PageView};
use crate::table::Table;

verus! {

/// What a snapshot holds, as plain values.
pub struct SnapshotView {
    pub id_counter: nat,
    pub pages: Seq<PageView>,
    pub nodes: Seq<DrawableView>,
}

/// The key that a page is stored under: its identifier.
pub open spec fn page_key() -> spec_fn(PageView) -> Seq<char> {
    |page: PageView| page.id
}

/// The key that a node is stored under: its identifier.
pub open spec fn node_key() -> spec_fn(DrawableView) -> Seq<char> {
    |node: DrawableView| node.id()
}

/// What each page of a list holds, in order.
pub open spec fn page_views(pages: Seq<Page>) -> Seq<PageView> {
    Seq::new(pages.len(), |i: int| pages[i]@)
}

/// What each node of a list holds, in order.
pub open spec fn node_views(nodes: Seq<Drawable>) -> Seq<DrawableView> {
    Seq::new(nodes.len(), |i: int| nodes[i]@)
}

impl SnapshotView {
    /// The document that the snapshot describes: every page and every node
    /// stored under its own identifier, in the order of the snapshot, with an
    /// empty history and no current page.
    pub open spec fn restored(self) -> DataModelView {
        DataModelView {
            current_page_id: Seq::empty(),
            pages: Table::gather(self.pages, page_key()),
            nodes: Table::gather(self.nodes, node_key()),
            id_counter: self.id_counter,
            undo_stack: Seq::empty(),
        }
    }
}

/// A document as it is written out and read back: the number of the
/// identifier issued last, the pages and the nodes. The current page, the
/// selections and the history are not part of it.
#[derive(Debug, PartialEq)]
pub struct Snapshot {
    pub id_counter: u64,
    pub pages: Vec<Page>,
    pub nodes: Vec<Drawable>,
}

impl View for Snapshot {
    type V = SnapshotView;

    open spec fn view(&self) -> SnapshotView {
        SnapshotView {
            id_counter: self.id_counter as nat,
            pages: page_views(self.pages@),
            nodes: node_views(self.nodes@),
        }
    }
}

} // verus!
