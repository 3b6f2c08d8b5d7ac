//! The document: pages, nodes, the source of identifiers and the history.
use vstd::prelude::*;
use crate::command::{operations, Command, Operation, OperationView};
use crate::drawable::{Drawable, DrawableView};
use crate::ident::{decimal, IdCounter};
use crate::node::Node;
use crate::page::{Page, PageView};
use crate::registry::Registry;
use crate::snapshot::{node_key, page_key, Snapshot, SnapshotView};
use crate::table::Table;
use crate::text::texts;

verus! {

/// What a document holds, as plain values.
pub struct DataModelView {
    /// The page that new lines are put on. It may name no page.
    pub current_page_id: Seq<char>,
    pub pages: Table<PageView>,
    pub nodes: Table<DrawableView>,
    /// The number of the identifier issued last.
    pub id_counter: nat,
    /// The commands that ran and were not taken back, oldest first.
    pub undo_stack: Seq<OperationView>,
}

impl DataModelView {
    /// The document that holds nothing and has issued no identifier.
    pub open spec fn empty() -> Self {
        DataModelView {
            current_page_id: Seq::empty(),
            pages: Table::empty(),
            nodes: Table::empty(),
            id_counter: 0,
            undo_stack: Seq::empty(),
        }
    }

    /// No page identifier and no node identifier is stored twice.
    pub open spec fn wf(self) -> bool {
        self.pages.wf() && self.nodes.wf()
    }

    /// The document after one more identifier was issued.
    pub open spec fn advance(self) -> Self {
        DataModelView { id_counter: self.id_counter + 1, ..self }
    }

    /// The document after `page` was stored under its identifier, in place of
    /// any page stored there before; `page` becomes the current page.
    pub open spec fn insert_page(self, page: PageView) -> Self {
        DataModelView {
            current_page_id: page.id,
            pages: self.pages.insert(page.id, page),
            ..self
        }
    }

    /// The document without the page stored under `id`.
    pub open spec fn remove_page(self, id: Seq<char>) -> Self {
        DataModelView { pages: self.pages.remove(id), ..self }
    }

    /// The document after `node` was stored under its identifier, in place of
    /// any node stored there before.
    pub open spec fn insert_node(self, node: DrawableView) -> Self {
        DataModelView { nodes: self.nodes.insert(node.id(), node), ..self }
    }

    /// The document without the node stored under `id`.
    pub open spec fn remove_node(self, id: Seq<char>) -> Self {
        DataModelView { nodes: self.nodes.remove(id), ..self }
    }

    /// The current page, where the current page identifier names one.
    pub open spec fn current_page(self) -> Option<PageView> {
        self.pages.lookup(self.current_page_id)
    }

    /// The document after `page` took the place of the current page.
    pub open spec fn with_current_page(self, page: PageView) -> Self {
        DataModelView { pages: self.pages.insert(self.current_page_id, page), ..self }
    }

    /// The document after the node `node_id` was put on the current page;
    /// the document itself where there is no current page.
    pub open spec fn attach(self, node_id: Seq<char>) -> Self {
        match self.current_page() {
            Some(page) => self.with_current_page(page.with_node(node_id)),
            None => self,
        }
    }

    /// The nodes that the identifiers `node_ids` name, in that order. An
    /// identifier that names no node gives nothing.
    pub open spec fn resolve(self, node_ids: Seq<Seq<char>>) -> Seq<DrawableView> {
        self.nodes.pick(node_ids)
    }

    /// Every page and every node is stored under its own identifier.
    pub open spec fn stored_under_own_id(self) -> bool {
        self.pages.keyed_by(page_key()) && self.nodes.keyed_by(node_key())
    }

    /// No page has a selection.
    pub open spec fn nothing_selected(self) -> bool {
        forall|i: int|
            0 <= i < self.pages.entries.len() ==> (
            #[trigger] self.pages.entries[i]).1.selected_ids.len() == 0
    }

    /// What is written out of the document: the counter, the pages without
    /// their selections and the nodes, both in the order in which they are
    /// stored.
    pub open spec fn snapshot(self) -> SnapshotView {
        SnapshotView {
            id_counter: self.id_counter,
            pages: Seq::new(self.pages.entries.len(), |i: int| self.pages.entries[i].1.persisted()),
            nodes: self.nodes.values(),
        }
    }

    /// The document with `op` as the newest command of its history.
    pub open spec fn remember(self, op: OperationView) -> Self {
        DataModelView { undo_stack: self.undo_stack.push(op), ..self }
    }

    /// The document without the newest command of its history.
    pub open spec fn forget(self) -> Self {
        DataModelView { undo_stack: self.undo_stack.drop_last(), ..self }
    }

    /// The document after `op` ran and was remembered.
    pub open spec fn execute(self, op: OperationView) -> Self {
        op.applied(self).remember(op)
    }

    /// The document after its newest command was taken back; the document
    /// itself where the history is empty.
    pub open spec fn undo(self) -> Self {
        if self.undo_stack.len() == 0 {
            self
        } else {
            self.undo_stack.last().reverted(self.forget())
        }
    }
}

/// A document.
#[derive(Debug)]
pub struct DataModel {
    current_page_id: String,
    pages: Registry<Page>,
    nodes: Registry<Drawable>,
    id_counter: IdCounter,
    undo_stack: Vec<Operation>,
}

impl View for DataModel {
    type V = DataModelView;

    closed spec fn view(&self) -> DataModelView {
        DataModelView {
            current_page_id: self.current_page_id@,
            pages: self.pages@,
            nodes: self.nodes@,
            id_counter: self.id_counter@,
            undo_stack: operations(self.undo_stack@),
        }
    }
}

impl DataModel {
    /// A document that holds nothing and has issued no identifier.
    pub fn new() -> (dm: Self)
        ensures
            dm@ == DataModelView::empty(),
    {
        let dm = DataModel {
            current_page_id: String::new(),
            pages: Registry::new(),
            nodes: Registry::new(),
            id_counter: IdCounter::new(),
            undo_stack: Vec::new(),
        };
        assert(dm@.undo_stack =~= Seq::empty());
        dm
    }

    /// States that no identifier is stored twice in this document.
    pub fn well_formed(&self)
        ensures
            self@.wf(),
    {
        self.pages.well_formed();
        self.nodes.well_formed();
    }

    /// The number of the identifier issued last.
    pub fn id_counter(&self) -> (n: u64)
        ensures
            n == self@.id_counter,
    {
        self.id_counter.issued()
    }

    /// Puts `cmd` on the history as its newest command, without running it.
    pub fn add_command(&mut self, cmd: Operation)
        ensures
            final(self)@ == old(self)@.remember(cmd@),
    {
        self.undo_stack.push(cmd);
        assert(self@.undo_stack =~= old(self)@.undo_stack.push(cmd@));
    }

    /// Issues the next identifier: the decimal numeral of the number of
    /// identifiers issued so far, this one included.
    pub fn next_id(&mut self) -> (id: String)
        requires
            old(self)@.id_counter < u64::MAX,
        ensures
            final(self)@ == old(self)@.advance(),
            id@ == decimal(old(self)@.id_counter + 1),
    {
        self.id_counter.next()
    }

    /// Stores `page` under its identifier and makes it the current page.
    pub fn insert_page(&mut self, page: Page)
        ensures
            final(self)@ == old(self)@.insert_page(page@),
    {
        self.current_page_id = page.get_id().to_owned();
        let key = page.get_id().to_owned();
        self.pages.insert(key, page);
    }

    /// Removes the page stored under `id`, if there is one.
    pub fn remove_page(&mut self, id: &str)
        ensures
            final(self)@ == old(self)@.remove_page(id@),
    {
        self.pages.remove(id);
    }

    /// Stores `node` under its identifier.
    pub fn insert_node(&mut self, node: Drawable)
        ensures
            final(self)@ == old(self)@.insert_node(node@),
    {
        let key = node.get_id().to_owned();
        self.nodes.insert(key, node);
    }

    /// Removes the node stored under `id`, if there is one.
    pub fn remove_node(&mut self, id: &str)
        ensures
            final(self)@ == old(self)@.remove_node(id@),
    {
        self.nodes.remove(id);
    }

    /// The current page, where the current page identifier names one.
    pub fn get_current_page(&self) -> (r: Option<&Page>)
        ensures
            match r {
                Some(page) => self@.current_page() == Some(page@),
                None => self@.current_page().is_none(),
            },
    {
        self.pages.get(self.current_page_id.as_str())
    }

    /// The current page, for the caller to change.
    pub fn get_current_page_mut(&mut self) -> (r: Option<&mut Page>)
        ensures
            match r {
                Some(page) => old(self)@.current_page() == Some(page@) && final(self)@ == old(
                    self,
                )@.with_current_page(final(page)@),
                None => old(self)@.current_page().is_none() && final(self)@ == old(self)@,
            },
    {
        self.pages.get_mut(self.current_page_id.as_str())
    }

    /// The pages in the order in which their identifiers were first stored.
    pub fn get_pages(&self) -> (r: Vec<&Page>)
        ensures
            r@.len() == self@.pages.len(),
            forall|i: int| 0 <= i < r@.len() ==> (#[trigger] r@[i])@ == self@.pages.entries[i].1,
    {
        self.pages.values()
    }

    /// The page stored under `id`, if there is one.
    pub fn get_page(&self, id: &str) -> (r: Option<&Page>)
        ensures
            match r {
                Some(page) => self@.pages.lookup(id@) == Some(page@),
                None => self@.pages.lookup(id@).is_none(),
            },
    {
        self.pages.get(id)
    }

    /// The nodes in the order in which their identifiers were first stored.
    pub fn get_nodes(&self) -> (r: Vec<&Drawable>)
        ensures
            r@.len() == self@.nodes.len(),
            forall|i: int| 0 <= i < r@.len() ==> (#[trigger] r@[i])@ == self@.nodes.entries[i].1,
    {
        self.nodes.values()
    }

    /// The node stored under `id`, if there is one.
    pub fn get_node(&self, id: &str) -> (r: Option<&Drawable>)
        ensures
            match r {
                Some(node) => self@.nodes.lookup(id@) == Some(node@),
                None => self@.nodes.lookup(id@).is_none(),
            },
    {
        self.nodes.get(id)
    }

    /// The node stored under `id`, if there is one, for the caller to change.
    pub fn get_node_mut(&mut self, id: &str) -> (r: Option<&mut Drawable>)
        ensures
            match r {
                Some(node) => old(self)@.nodes.lookup(id@) == Some(node@) && final(self)@ == (
                DataModelView { nodes: old(self)@.nodes.insert(id@, final(node)@), ..old(self)@ }),
                None => old(self)@.nodes.lookup(id@).is_none() && final(self)@ == old(self)@,
            },
    {
        self.nodes.get_mut(id)
    }

    /// The nodes that the identifiers `node_ids` name, in that order. An
    /// identifier that names no node, such as one left on a page after its
    /// node was removed, is passed over.
    pub fn resolve(&self, node_ids: &Vec<String>) -> (r: Vec<&Drawable>)
        ensures
            r@.len() == self@.resolve(texts(node_ids@)).len(),
            forall|i: int|
                0 <= i < r@.len() ==> (#[trigger] r@[i])@ == self@.resolve(texts(node_ids@))[i],
    {
        self.nodes.pick(node_ids)
    }

    /// What is written out of the document.
    pub fn snapshot(&self) -> (r: Snapshot)
        ensures
            r@ == self@.snapshot(),
    {
        let stored_pages = self.pages.values();
        let mut pages: Vec<Page> = Vec::new();
        let mut i: usize = 0;
        while i < stored_pages.len()
            invariant
                i <= stored_pages@.len(),
                stored_pages@.len() == self@.pages.entries.len(),
                forall|j: int|
                    0 <= j < stored_pages@.len() ==> (#[trigger] stored_pages@[j])@
                        == self@.pages.entries[j].1,
                pages@.len() == i,
                forall|j: int|
                    0 <= j < i ==> (#[trigger] pages@[j])@ == self@.pages.entries[j].1.persisted(),
            decreases stored_pages@.len() - i,
        {
            pages.push(stored_pages[i].persisted());
            i += 1;
        }
        let stored_nodes = self.nodes.values();
        let mut nodes: Vec<Drawable> = Vec::new();
        let mut k: usize = 0;
        while k < stored_nodes.len()
            invariant
                k <= stored_nodes@.len(),
                stored_nodes@.len() == self@.nodes.entries.len(),
                forall|j: int|
                    0 <= j < stored_nodes@.len() ==> (#[trigger] stored_nodes@[j])@
                        == self@.nodes.entries[j].1,
                nodes@.len() == k,
                forall|j: int| 0 <= j < k ==> (#[trigger] nodes@[j])@ == self@.nodes.entries[j].1,
            decreases stored_nodes@.len() - k,
        {
            nodes.push(stored_nodes[k].clone());
            k += 1;
        }
        let r = Snapshot { id_counter: self.id_counter.issued(), pages, nodes };
        assert(r@.pages =~= self@.snapshot().pages);
        assert(r@.nodes =~= self@.snapshot().nodes);
        r
    }

    /// The document that `snapshot` describes.
    pub fn restore(snapshot: &Snapshot) -> (dm: Self)
        ensures
            dm@ == snapshot@.restored(),
    {
        let mut pages: Registry<Page> = Registry::new();
        let mut i: usize = 0;
        assert(snapshot@.pages.take(0) =~= Seq::empty());
        while i < snapshot.pages.len()
            invariant
                i <= snapshot.pages@.len(),
                pages@ == Table::gather(snapshot@.pages.take(i as int), page_key()),
            decreases snapshot.pages@.len() - i,
        {
            proof {
                let next = snapshot@.pages.take(i + 1);
                assert(next.drop_last() =~= snapshot@.pages.take(i as int));
                assert(next.last() == snapshot.pages@[i as int]@);
            }
            let page = snapshot.pages[i].clone();
            let key = page.get_id().to_owned();
            pages.insert(key, page);
            i += 1;
        }
        assert(snapshot@.pages.take(snapshot.pages@.len() as int) =~= snapshot@.pages);
        let mut nodes: Registry<Drawable> = Registry::new();
        let mut k: usize = 0;
        assert(snapshot@.nodes.take(0) =~= Seq::empty());
        while k < snapshot.nodes.len()
            invariant
                k <= snapshot.nodes@.len(),
                nodes@ == Table::gather(snapshot@.nodes.take(k as int), node_key()),
            decreases snapshot.nodes@.len() - k,
        {
            proof {
                let next = snapshot@.nodes.take(k + 1);
                assert(next.drop_last() =~= snapshot@.nodes.take(k as int));
                assert(next.last() == snapshot.nodes@[k as int]@);
            }
            let node = snapshot.nodes[k].clone();
            let key = node.get_id().to_owned();
            nodes.insert(key, node);
            k += 1;
        }
        assert(snapshot@.nodes.take(snapshot.nodes@.len() as int) =~= snapshot@.nodes);
        let dm = DataModel {
            current_page_id: String::new(),
            pages,
            nodes,
            id_counter: IdCounter::starting_after(snapshot.id_counter),
            undo_stack: Vec::new(),
        };
        assert(dm@.undo_stack =~= Seq::empty());
        dm
    }

    /// The identifier of the current page; empty before the first page.
    pub fn get_current_page_id(&self) -> (id: &str)
        ensures
            id@ == self@.current_page_id,
    {
        self.current_page_id.as_str()
    }

    /// Runs `cmd` and puts it on the history.
    pub fn execute_command(&mut self, cmd: Operation)
        ensures
            final(self)@ == old(self)@.execute(cmd@),
    {
        cmd.execute(self);
        self.add_command(cmd);
    }

    /// Takes the newest command off the history and takes it back. Returns
    /// the command, or nothing where the history was empty.
    pub fn undo_pop(&mut self) -> (r: Option<Operation>)
        ensures
            final(self)@ == old(self)@.undo(),
            match r {
                Some(cmd) => old(self)@.undo_stack.len() > 0 && cmd@ == old(
                    self,
                )@.undo_stack.last(),
                None => old(self)@.undo_stack.len() == 0,
            },
    {
        if let Some(cmd) = self.undo_stack.pop() {
            assert(self@.undo_stack =~= old(self)@.undo_stack.drop_last());
            cmd.undo(self);
            Some(cmd)
        } else {
            None
        }
    }

    /// Takes the newest command back. Returns whether there was one.
    pub fn undo(&mut self) -> (undone: bool)
        ensures
            final(self)@ == old(self)@.undo(),
            undone == (old(self)@.undo_stack.len() > 0),
    {
        self.undo_pop().is_some()
    }

    /// The history, oldest command first.
    pub fn list_commands(&self) -> (r: &Vec<Operation>)
        ensures
            operations(r@) == self@.undo_stack,
    {
        &self.undo_stack
    }
}

impl Default for DataModel {
    fn default() -> (dm: Self)
        ensures
            dm@ == DataModelView::empty(),
    {
        DataModel::new()
    }
}

} // verus!
