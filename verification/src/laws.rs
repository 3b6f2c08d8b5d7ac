//! What holds of every document, whatever commands ran on it.
use vstd::prelude::*;
use crate::command::OperationView;
use crate::datamodel::DataModelView;
use crate::drawable::DrawableView;
use crate::ident::{decimal, lemma_decimal_injective};
use crate::line::LineView;
use crate::page::PageView;
use crate::scalar::Scalar;
use crate::snapshot::{node_key, page_key};
use crate::table::Table;

verus! {

/// One step of editing: a command runs and is remembered, or the newest
/// command is taken back.
pub enum Step {
    Execute(OperationView),
    Undo,
}

/// The document after the steps ran on `start`, one after the other.
pub open spec fn run(start: DataModelView, steps: Seq<Step>) -> DataModelView
    decreases steps.len(),
{
    if steps.len() == 0 {
        start
    } else {
        let before = run(start, steps.drop_last());
        match steps.last() {
            Step::Execute(op) => before.execute(op),
            Step::Undo => before.undo(),
        }
    }
}

/// Running a command and taking a command back keep a document well formed.
pub proof fn lemma_commands_keep_wf(dm: DataModelView, op: OperationView)
    requires
        dm.wf(),
    ensures
        op.applied(dm).wf(),
        op.reverted(dm).wf(),
        dm.execute(op).wf(),
        dm.undo().wf(),
{
    match op {
        OperationView::Page(page) => dm.pages.lemma_insert(page.id, page.page()),
        OperationView::CreatePage(page) => dm.pages.lemma_insert(page.id, page.page()),
        OperationView::Line(line) => {
            dm.nodes.lemma_insert(line.id, DrawableView::Line(line));
            let stored = dm.insert_node(DrawableView::Line(line));
            if stored.current_page() is Some {
                stored.pages.lemma_insert(
                    stored.current_page_id,
                    stored.current_page().unwrap().with_node(line.id),
                );
            }
        },
        OperationView::CreateLine(line) => dm.nodes.lemma_insert(
            line.id,
            DrawableView::Line(line),
        ),
        OperationView::Arc(arc) => dm.nodes.lemma_insert(arc.id, DrawableView::Arc(arc)),
        OperationView::CreateArc(arc) => dm.nodes.lemma_insert(arc.id, DrawableView::Arc(arc)),
        OperationView::Export(_) => {},
    }
    lemma_reverted_keeps_wf(dm, op);
    if dm.undo_stack.len() > 0 {
        lemma_reverted_keeps_wf(dm.forget(), dm.undo_stack.last());
    }
}

/// Taking a command back keeps a document well formed.
pub proof fn lemma_reverted_keeps_wf(dm: DataModelView, op: OperationView)
    requires
        dm.wf(),
    ensures
        op.reverted(dm).wf(),
{
    match op {
        OperationView::Page(page) => {
            dm.pages.lemma_remove(page.id);
        },
        OperationView::CreatePage(page) => {
            dm.pages.lemma_remove(page.id);
        },
        OperationView::Line(line) => {
            dm.nodes.lemma_remove(line.id);
        },
        OperationView::CreateLine(line) => {
            dm.nodes.lemma_remove(line.id);
        },
        OperationView::Arc(arc) => {
            dm.nodes.lemma_remove(arc.id);
        },
        OperationView::CreateArc(arc) => {
            dm.nodes.lemma_remove(arc.id);
        },
        OperationView::Export(_) => {},
    }
}

/// No command moves the counter of identifiers, neither when it runs nor when
/// it is taken back: an identifier that was issued stays issued.
pub proof fn lemma_commands_keep_counter(dm: DataModelView, op: OperationView)
    ensures
        op.applied(dm).id_counter == dm.id_counter,
        op.reverted(dm).id_counter == dm.id_counter,
        dm.execute(op).id_counter == dm.id_counter,
        dm.undo().id_counter == dm.id_counter,
{
    if dm.undo_stack.len() > 0 {
        let last = dm.undo_stack.last();
        assert(last.reverted(dm.forget()).id_counter == dm.forget().id_counter);
    }
}

/// The counter of identifiers stays where it is, whatever steps run: only
/// issuing an identifier moves it, and that moves it up.
pub proof fn lemma_steps_keep_counter(start: DataModelView, steps: Seq<Step>)
    ensures
        run(start, steps).id_counter == start.id_counter,
    decreases steps.len(),
{
    if steps.len() > 0 {
        lemma_steps_keep_counter(start, steps.drop_last());
        let before = run(start, steps.drop_last());
        match steps.last() {
            Step::Execute(op) => lemma_commands_keep_counter(before, op),
            Step::Undo => lemma_commands_keep_counter(before, OperationView::Export(Seq::empty())),
        }
    }
}

/// Two identifiers that a counter issues at different times differ.
pub proof fn lemma_identifiers_differ(earlier: nat, later: nat)
    requires
        earlier < later,
    ensures
        decimal(earlier) != decimal(later),
{
    if decimal(earlier) == decimal(later) {
        lemma_decimal_injective(earlier, later);
    }
}

/// Taking back the command that ran last undoes what it created and leaves
/// the history as it was before the command ran: the document is the one
/// from which the command was run and then reverted.
pub proof fn lemma_execute_then_undo(dm: DataModelView, op: OperationView)
    ensures
        dm.execute(op).undo() == op.reverted(op.applied(dm)),
        dm.execute(op).undo().undo_stack == dm.undo_stack,
        dm.execute(op).undo().id_counter == dm.id_counter,
{
    let ran = dm.execute(op);
    assert(ran.undo_stack.last() == op);
    assert(ran.undo_stack.drop_last() =~= dm.undo_stack);
    assert(op.applied(dm).undo_stack == dm.undo_stack);
    assert(ran.forget() == op.applied(dm));
}

/// After a command that creates a node ran and was taken back, no node is
/// stored under the command's identifier. Where the identifier was new to
/// the document, the nodes are those from before the command.
pub proof fn lemma_created_node_is_gone(dm: DataModelView, op: OperationView)
    requires
        dm.wf(),
        op.node_id() is Some,
    ensures
        !dm.execute(op).undo().nodes.contains_key(op.node_id().unwrap()),
        !dm.nodes.contains_key(op.node_id().unwrap()) ==> dm.execute(op).undo().nodes == dm.nodes,
{
    lemma_execute_then_undo(dm, op);
    let id = op.node_id().unwrap();
    let node = match op {
        OperationView::Line(line) => DrawableView::Line(line),
        OperationView::CreateLine(line) => DrawableView::Line(line),
        OperationView::Arc(arc) => DrawableView::Arc(arc),
        _ => DrawableView::Arc(op->CreateArc_0),
    };
    assert(op.applied(dm).nodes == dm.nodes.insert(id, node));
    dm.nodes.lemma_insert(id, node);
    dm.nodes.insert(id, node).lemma_remove(id);
    if !dm.nodes.contains_key(id) {
        dm.nodes.lemma_insert_then_remove(id, node);
    }
}

/// After a command that creates a page ran and was taken back, no page is
/// stored under the command's identifier. Where the identifier was new to
/// the document, the pages are those from before the command.
pub proof fn lemma_created_page_is_gone(dm: DataModelView, op: OperationView)
    requires
        dm.wf(),
        op.page_id() is Some,
    ensures
        !dm.execute(op).undo().pages.contains_key(op.page_id().unwrap()),
        !dm.pages.contains_key(op.page_id().unwrap()) ==> dm.execute(op).undo().pages == dm.pages,
{
    lemma_execute_then_undo(dm, op);
    let id = op.page_id().unwrap();
    let page = match op {
        OperationView::Page(page) => page.page(),
        _ => op->CreatePage_0.page(),
    };
    assert(op.applied(dm).pages == dm.pages.insert(id, page));
    dm.pages.lemma_insert(id, page);
    dm.pages.insert(id, page).lemma_remove(id);
    if !dm.pages.contains_key(id) {
        dm.pages.lemma_insert_then_remove(id, page);
    }
}

/// A line is created under the identifier that the document issues next,
/// by the command that puts it on the current page (`on_page`) or by the
/// one that does not, and the command is taken back. Then no node is stored
/// under that identifier, the history is as before, the counter stays where
/// the issue left it, and every identifier that the document issues from
/// then on, whatever else runs on it, differs from this one: the identifier
/// is not used again.
pub proof fn lemma_line_created_then_undone(
    dm: DataModelView,
    x1: Scalar,
    y1: Scalar,
    x2: Scalar,
    y2: Scalar,
    on_page: bool,
)
    requires
        dm.wf(),
    ensures
        ({
            let id = decimal(dm.id_counter + 1);
            let line = LineView { id, x1, y1, x2, y2 };
            let op = if on_page {
                OperationView::Line(line)
            } else {
                OperationView::CreateLine(line)
            };
            let after = dm.advance().execute(op).undo();
            &&& !after.nodes.contains_key(id)
            &&& after.id_counter == dm.id_counter + 1
            &&& after.undo_stack == dm.undo_stack
            &&& !on_page ==> after.pages == dm.pages
            &&& !dm.nodes.contains_key(id) ==> after.nodes == dm.nodes
            &&& forall|steps: Seq<Step>, n: nat|
                n > (#[trigger] run(after, steps)).id_counter ==> #[trigger] decimal(n) != id
        }),
{
    let id = decimal(dm.id_counter + 1);
    let line = LineView { id, x1, y1, x2, y2 };
    let op = if on_page {
        OperationView::Line(line)
    } else {
        OperationView::CreateLine(line)
    };
    let issued = dm.advance();
    let after = issued.execute(op).undo();
    lemma_execute_then_undo(issued, op);
    lemma_created_node_is_gone(issued, op);
    assert forall|steps: Seq<Step>, n: nat|
        n > (#[trigger] run(after, steps)).id_counter implies #[trigger] decimal(n) != id by {
        lemma_steps_keep_counter(after, steps);
        lemma_identifiers_differ(dm.id_counter + 1, n);
    }
}

/// Whatever steps run on an empty document, the document stays well formed,
/// every page and every node is stored under its own identifier, and no page
/// has a selection.
pub proof fn lemma_edited_documents(steps: Seq<Step>)
    ensures
        run(DataModelView::empty(), steps).wf(),
        run(DataModelView::empty(), steps).stored_under_own_id(),
        run(DataModelView::empty(), steps).nothing_selected(),
    decreases steps.len(),
{
    if steps.len() > 0 {
        lemma_edited_documents(steps.drop_last());
        let before = run(DataModelView::empty(), steps.drop_last());
        match steps.last() {
            Step::Execute(op) => lemma_applied_keeps_order(before, op),
            Step::Undo => {
                if before.undo_stack.len() > 0 {
                    lemma_reverted_keeps_order(before.forget(), before.undo_stack.last());
                }
            },
        }
    }
}

/// Running a command keeps a document well formed, every entity under its
/// own identifier and every page without a selection.
pub proof fn lemma_applied_keeps_order(dm: DataModelView, op: OperationView)
    requires
        dm.wf(),
        dm.stored_under_own_id(),
        dm.nothing_selected(),
    ensures
        dm.execute(op).wf(),
        dm.execute(op).stored_under_own_id(),
        dm.execute(op).nothing_selected(),
{
    lemma_commands_keep_wf(dm, op);
    match op {
        OperationView::Page(page) => lemma_insert_page_keeps_order(dm, page.page()),
        OperationView::CreatePage(page) => lemma_insert_page_keeps_order(dm, page.page()),
        OperationView::Line(line) => {
            let node = DrawableView::Line(line);
            dm.nodes.lemma_insert_keeps_keyed(line.id, node, node_key());
            dm.nodes.lemma_insert(line.id, node);
            let stored = dm.insert_node(node);
            if stored.current_page() is Some {
                let cur = stored.current_page_id;
                let page = stored.pages.get(cur);
                let p = stored.pages.position(cur);
                assert(stored.pages.entries[p].1 == page);
                assert(page.id == cur);
                assert(page.selected_ids.len() == 0);
                lemma_insert_page_keeps_order(stored, page.with_node(line.id));
                assert(stored.attach(line.id).pages == stored.insert_page(
                    page.with_node(line.id),
                ).pages);
            }
        },
        OperationView::CreateLine(line) => {
            dm.nodes.lemma_insert_keeps_keyed(line.id, DrawableView::Line(line), node_key());
        },
        OperationView::Arc(arc) => {
            dm.nodes.lemma_insert_keeps_keyed(arc.id, DrawableView::Arc(arc), node_key());
        },
        OperationView::CreateArc(arc) => {
            dm.nodes.lemma_insert_keeps_keyed(arc.id, DrawableView::Arc(arc), node_key());
        },
        OperationView::Export(_) => {},
    }
}

/// Storing a page without a selection keeps every page under its own
/// identifier and without a selection.
pub proof fn lemma_insert_page_keeps_order(dm: DataModelView, page: PageView)
    requires
        dm.stored_under_own_id(),
        dm.nothing_selected(),
        page.selected_ids.len() == 0,
    ensures
        dm.insert_page(page).stored_under_own_id(),
        dm.insert_page(page).nothing_selected(),
{
    dm.pages.lemma_insert_keeps_keyed(page.id, page, page_key());
    dm.pages.lemma_insert_entries(page.id, page);
    let t = dm.pages.insert(page.id, page);
    assert forall|i: int| 0 <= i < t.entries.len() implies (
    #[trigger] t.entries[i]).1.selected_ids.len() == 0 by {
        if t.entries[i] != (page.id, page) {
            assert(t.entries[i] == dm.pages.entries[i]);
        }
    }
}

/// Taking a command back keeps a document well formed, every entity under
/// its own identifier and every page without a selection.
pub proof fn lemma_reverted_keeps_order(dm: DataModelView, op: OperationView)
    requires
        dm.wf(),
        dm.stored_under_own_id(),
        dm.nothing_selected(),
    ensures
        op.reverted(dm).wf(),
        op.reverted(dm).stored_under_own_id(),
        op.reverted(dm).nothing_selected(),
{
    lemma_reverted_keeps_wf(dm, op);
    match op {
        OperationView::Page(page) => lemma_remove_page_keeps_order(dm, page.id),
        OperationView::CreatePage(page) => lemma_remove_page_keeps_order(dm, page.id),
        OperationView::Line(line) => dm.nodes.lemma_remove_keeps_keyed(line.id, node_key()),
        OperationView::CreateLine(line) => dm.nodes.lemma_remove_keeps_keyed(line.id, node_key()),
        OperationView::Arc(arc) => dm.nodes.lemma_remove_keeps_keyed(arc.id, node_key()),
        OperationView::CreateArc(arc) => dm.nodes.lemma_remove_keeps_keyed(arc.id, node_key()),
        OperationView::Export(_) => {},
    }
}

/// Removing a page keeps every page under its own identifier and without a
/// selection.
pub proof fn lemma_remove_page_keeps_order(dm: DataModelView, id: Seq<char>)
    requires
        dm.stored_under_own_id(),
        dm.nothing_selected(),
    ensures
        dm.remove_page(id).stored_under_own_id(),
        dm.remove_page(id).nothing_selected(),
{
    dm.pages.lemma_remove_keeps_keyed(id, page_key());
    dm.pages.lemma_remove_entries(id);
    let t = dm.pages.remove(id);
    assert forall|i: int| 0 <= i < t.entries.len() implies (
    #[trigger] t.entries[i]).1.selected_ids.len() == 0 by {
        if t.entries[i] == dm.pages.entries[i] {
        } else {
            assert(t.entries[i] == dm.pages.entries[i + 1]);
            if !dm.pages.contains_key(id) {
                assert(t.entries[i] == dm.pages.entries[i]);
            }
        }
    }
}

/// Writing a document out and reading it back gives the same nodes and the
/// same counter, and the same pages but for their selections, where every
/// page and every node of the document is stored under its own identifier.
/// Where no page has a selection, the pages are the same too.
pub proof fn lemma_snapshot_round_trip(dm: DataModelView)
    requires
        dm.wf(),
        dm.stored_under_own_id(),
    ensures
        dm.snapshot().restored().nodes == dm.nodes,
        dm.snapshot().restored().id_counter == dm.id_counter,
        dm.snapshot().restored().pages.wf(),
        dm.snapshot().restored().pages.entries.len() == dm.pages.entries.len(),
        forall|i: int|
            0 <= i < dm.pages.entries.len() ==> #[trigger] dm.snapshot().restored().pages.entries[i]
                == (dm.pages.entries[i].0, dm.pages.entries[i].1.persisted()),
        dm.nothing_selected() ==> dm.snapshot().restored().pages == dm.pages,
{
    let snap = dm.snapshot();
    let back = snap.restored();
    assert(snap.nodes == dm.nodes.values());
    dm.nodes.lemma_gather_values(node_key());
    assert forall|i: int, j: int| 0 <= i < j < snap.pages.len() implies page_key()(
        #[trigger] snap.pages[i],
    ) != page_key()(#[trigger] snap.pages[j]) by {
        assert(page_key()(dm.pages.entries[i].1) == dm.pages.entries[i].0);
        assert(page_key()(dm.pages.entries[j].1) == dm.pages.entries[j].0);
    }
    Table::lemma_gather_distinct(snap.pages, page_key());
    assert forall|i: int| 0 <= i < dm.pages.entries.len() implies #[trigger] back.pages.entries[i]
        == (dm.pages.entries[i].0, dm.pages.entries[i].1.persisted()) by {
        assert(page_key()(dm.pages.entries[i].1) == dm.pages.entries[i].0);
    }
    if dm.nothing_selected() {
        assert forall|i: int| 0 <= i < dm.pages.entries.len() implies #[trigger] back.pages.entries[i]
            == dm.pages.entries[i] by {
            let page = dm.pages.entries[i].1;
            assert(page.selected_ids =~= Seq::empty());
            assert(page.persisted() == page);
        }
        assert(back.pages.entries =~= dm.pages.entries);
    }
}

/// Whatever commands ran and were taken back on a document that began
/// empty: writing the document out and reading it back gives the same pages,
/// the same nodes and the same counter.
pub proof fn lemma_round_trip_after_editing(steps: Seq<Step>)
    ensures
        ({
            let dm = run(DataModelView::empty(), steps);
            let back = dm.snapshot().restored();
            &&& back.pages == dm.pages
            &&& back.nodes == dm.nodes
            &&& back.id_counter == dm.id_counter
        }),
{
    lemma_edited_documents(steps);
    lemma_snapshot_round_trip(run(DataModelView::empty(), steps));
}

} // verus!
