//! The commands of an interactive sitting: `create`, `list`, `save`, `undo`.
//!
//! The functions here decide what a line of input does to the document and
//! what is to be shown or written; showing and writing are left to whoever
//! reads the lines.
use vstd::prelude::*;
use crate::arc::ArcView;
use crate::arccommand::CreateArcCommand;
use crate::arguments::{number_arg, number_at, text_arg, text_at};
use crate::command::{Operation, OperationView};
use crate::datamodel::{DataModel, DataModelView};
use crate::drawable::{Drawable, DrawableView};
use crate::ident::decimal;
use crate::line::{Line, LineView};
use crate::linecommand::CreateLineCommand;
use crate::node::{Node, NodeType};
use crate::page::{Page, PageView};
use crate::pagecommand::{CreatePageCommand, PageCommandView};
use crate::scalar::Scalar;
use crate::snapshot::{page_views, Snapshot, SnapshotView};
use crate::text::{same, texts};
use crate::words::{split_whitespace, words_of};

verus! {

/// What one entry of a listing of lines holds, as plain values.
pub enum ListedView {
    Line(LineView),
    Unhandled(NodeType),
}

/// One entry of a listing of lines: a line, or the kind of a node that is
/// no line and is reported as not handled.
#[derive(Debug, PartialEq)]
pub enum Listed {
    Line(Line),
    Unhandled(NodeType),
}

impl View for Listed {
    type V = ListedView;

    open spec fn view(&self) -> ListedView {
        match self {
            Listed::Line(line) => ListedView::Line(line@),
            Listed::Unhandled(kind) => ListedView::Unhandled(*kind),
        }
    }
}

/// What each entry of a listing of lines holds, in order.
pub open spec fn listed_views(entries: Seq<Listed>) -> Seq<ListedView> {
    Seq::new(entries.len(), |i: int| entries[i]@)
}

/// The entry that a node gets in a listing of lines.
pub open spec fn listed(node: DrawableView) -> ListedView {
    match node {
        DrawableView::Line(line) => ListedView::Line(line),
        DrawableView::Arc(_) => ListedView::Unhandled(NodeType::Arc),
    }
}

/// What a listing holds, as plain values.
pub enum ListingView {
    Commands,
    Pages(Seq<PageView>),
    Page(PageView),
    PageNotFound(Seq<char>),
    Lines(Seq<ListedView>),
    Unknown(Seq<char>),
}

/// What `list` is to show.
#[derive(Debug, PartialEq)]
pub enum Listing {
    /// The history of the document, oldest command first.
    Commands,
    /// Every page, in the order in which the pages are stored.
    Pages(Vec<Page>),
    /// The page that was asked for.
    Page(Page),
    /// No page has the identifier that was asked for.
    PageNotFound(String),
    /// An entry for every node, in the order in which the nodes are stored.
    Lines(Vec<Listed>),
    /// The word names nothing that can be listed.
    Unknown(String),
}

impl View for Listing {
    type V = ListingView;

    open spec fn view(&self) -> ListingView {
        match self {
            Listing::Commands => ListingView::Commands,
            Listing::Pages(pages) => ListingView::Pages(page_views(pages@)),
            Listing::Page(page) => ListingView::Page(page@),
            Listing::PageNotFound(id) => ListingView::PageNotFound(id@),
            Listing::Lines(entries) => ListingView::Lines(listed_views(entries@)),
            Listing::Unknown(word) => ListingView::Unknown(word@),
        }
    }
}

impl DataModelView {
    /// What `list what id` shows of the document.
    pub open spec fn listing(self, what: Seq<char>, id: Seq<char>) -> ListingView {
        if what == "commands"@ {
            ListingView::Commands
        } else if what == "pages"@ {
            ListingView::Pages(self.pages.values())
        } else if what == "page"@ {
            match self.pages.lookup(id) {
                Some(page) => ListingView::Page(page),
                None => ListingView::PageNotFound(id),
            }
        } else if what == "lines"@ {
            ListingView::Lines(
                Seq::new(self.nodes.entries.len(), |i: int| listed(self.nodes.entries[i].1)),
            )
        } else {
            ListingView::Unknown(what)
        }
    }
}

/// The command that `create kind arguments` asks for, where `id` is the
/// identifier that the command gets; nothing where `kind` names no kind of
/// entity. The word at place 1 is the kind, the arguments follow.
///
/// ```text
/// create page name description                  defaults "new-page" "page-description"
/// create line x1 y1 x2 y2                       defaults 0 0 0 0
/// create arc  x y r angle_start angle_end       defaults 0 0 0 0 360
/// ```
pub open spec fn created(
    words: Seq<Seq<char>>,
    numbers: Seq<Option<Scalar>>,
    id: Seq<char>,
) -> Option<OperationView> {
    match NodeType::spec_parse(text_at(words, 1, ""@)) {
        Some(NodeType::Page) => Some(
            OperationView::CreatePage(
                PageCommandView {
                    id,
                    name: text_at(words, 2, "new-page"@),
                    description: text_at(words, 3, "page-description"@),
                },
            ),
        ),
        Some(NodeType::Line) => Some(
            OperationView::CreateLine(
                LineView {
                    id,
                    x1: number_at(words, numbers, 2, Scalar::zero()),
                    y1: number_at(words, numbers, 3, Scalar::zero()),
                    x2: number_at(words, numbers, 4, Scalar::zero()),
                    y2: number_at(words, numbers, 5, Scalar::zero()),
                },
            ),
        ),
        Some(NodeType::Arc) => Some(
            OperationView::CreateArc(
                ArcView {
                    id,
                    x: number_at(words, numbers, 2, Scalar::zero()),
                    y: number_at(words, numbers, 3, Scalar::zero()),
                    r: number_at(words, numbers, 4, Scalar::zero()),
                    angle_start: number_at(words, numbers, 5, Scalar::zero()),
                    angle_end: number_at(words, numbers, 6, Scalar::full_turn()),
                },
            ),
        ),
        None => None,
    }
}

/// Runs `create`: builds the command that the words ask for, under the next
/// identifier of the document, runs it and puts it on the document's
/// history. Where the kind is unknown the document stays as it is, no
/// identifier is taken, and the message says so.
pub fn execute_create(
    dm: &mut DataModel,
    words: &Vec<String>,
    numbers: &Vec<Option<Scalar>>,
) -> (r: Result<(), String>)
    requires
        old(dm)@.id_counter < u64::MAX,
    ensures
        match r {
            Ok(_) => {
                let op = created(texts(words@), numbers@, decimal(old(dm)@.id_counter + 1));
                op is Some && final(dm)@ == old(dm)@.advance().execute(op.unwrap())
            },
            Err(msg) => {
                &&& created(texts(words@), numbers@, decimal(old(dm)@.id_counter + 1)) is None
                &&& msg@ == "Invalid node type"@
                &&& final(dm)@ == old(dm)@
            },
        },
{
    let node_type_str = text_arg(words, 1, "");
    match NodeType::parse(node_type_str.as_str()) {
        Some(NodeType::Page) => {
            let cmd = CreatePageCommand::new(
                dm.next_id(),
                text_arg(words, 2, "new-page"),
                text_arg(words, 3, "page-description"),
            );
            dm.execute_command(Operation::CreatePage(cmd));
            Ok(())
        },
        Some(NodeType::Line) => {
            let x1 = number_arg(words, numbers, 2, Scalar::zero());
            let y1 = number_arg(words, numbers, 3, Scalar::zero());
            let x2 = number_arg(words, numbers, 4, Scalar::zero());
            let y2 = number_arg(words, numbers, 5, Scalar::zero());
            let cmd = CreateLineCommand::new(dm.next_id(), x1, y1, x2, y2);
            dm.execute_command(Operation::CreateLine(cmd));
            Ok(())
        },
        Some(NodeType::Arc) => {
            let x = number_arg(words, numbers, 2, Scalar::zero());
            let y = number_arg(words, numbers, 3, Scalar::zero());
            let r = number_arg(words, numbers, 4, Scalar::zero());
            let angle_start = number_arg(words, numbers, 5, Scalar::zero());
            let angle_end = number_arg(words, numbers, 6, Scalar::full_turn());
            let cmd = CreateArcCommand::new(dm.next_id(), x, y, r, angle_start, angle_end);
            dm.execute_command(Operation::CreateArc(cmd));
            Ok(())
        },
        None => Err("Invalid node type".to_owned()),
    }
}

/// Runs `list`: gathers what the words ask to see. The word at place 1 says
/// what to list, the word at place 2 names the page for `list page`.
pub fn execute_list(dm: &DataModel, words: &Vec<String>) -> (r: Listing)
    ensures
        r@ == dm@.listing(text_at(texts(words@), 1, ""@), text_at(texts(words@), 2, ""@)),
{
    let node_type = text_arg(words, 1, "");
    if same(node_type.as_str(), "commands") {
        Listing::Commands
    } else if same(node_type.as_str(), "pages") {
        let stored = dm.get_pages();
        let mut pages: Vec<Page> = Vec::new();
        let mut i: usize = 0;
        while i < stored.len()
            invariant
                i <= stored@.len(),
                stored@.len() == dm@.pages.len(),
                forall|j: int|
                    0 <= j < stored@.len() ==> (#[trigger] stored@[j])@ == dm@.pages.entries[j].1,
                pages@.len() == i,
                forall|j: int| 0 <= j < i ==> (#[trigger] pages@[j])@ == dm@.pages.entries[j].1,
            decreases stored@.len() - i,
        {
            pages.push(stored[i].clone());
            i += 1;
        }
        assert(page_views(pages@) =~= dm@.pages.values());
        Listing::Pages(pages)
    } else if same(node_type.as_str(), "page") {
        let id = text_arg(words, 2, "");
        match dm.get_page(id.as_str()) {
            Some(page) => Listing::Page(page.clone()),
            None => Listing::PageNotFound(id),
        }
    } else if same(node_type.as_str(), "lines") {
        let stored = dm.get_nodes();
        let mut entries: Vec<Listed> = Vec::new();
        let mut i: usize = 0;
        while i < stored.len()
            invariant
                i <= stored@.len(),
                stored@.len() == dm@.nodes.len(),
                forall|j: int|
                    0 <= j < stored@.len() ==> (#[trigger] stored@[j])@ == dm@.nodes.entries[j].1,
                entries@.len() == i,
                forall|j: int|
                    0 <= j < i ==> (#[trigger] entries@[j])@ == listed(dm@.nodes.entries[j].1),
            decreases stored@.len() - i,
        {
            let entry = match stored[i] {
                Drawable::Line(line) => Listed::Line(line.clone()),
                Drawable::Arc(arc) => Listed::Unhandled(*arc.get_node_type()),
            };
            entries.push(entry);
            i += 1;
        }
        assert(listed_views(entries@) =~= Seq::new(
            dm@.nodes.entries.len(),
            |i: int| listed(dm@.nodes.entries[i].1),
        ));
        Listing::Lines(entries)
    } else {
        Listing::Unknown(node_type)
    }
}

/// What an answer to a line of input holds, as plain values.
pub enum ReplyView {
    Exit,
    Created,
    Rejected(Seq<char>),
    Listed(ListingView),
    Save(SnapshotView),
    Undone(bool),
    Unknown(Seq<char>),
}

/// The answer to a line of input: what the reader of the lines is to do
/// next.
#[derive(Debug, PartialEq)]
pub enum Reply {
    /// The sitting is over.
    Exit,
    /// An entity was created.
    Created,
    /// Nothing was created; the message says why.
    Rejected(String),
    /// Something is to be shown.
    Listed(Listing),
    /// The document is to be written out in this form.
    Save(Snapshot),
    /// A command was taken back, or there was none to take back.
    Undone(bool),
    /// The first word of the line is no command.
    Unknown(String),
}

impl View for Reply {
    type V = ReplyView;

    open spec fn view(&self) -> ReplyView {
        match self {
            Reply::Exit => ReplyView::Exit,
            Reply::Created => ReplyView::Created,
            Reply::Rejected(msg) => ReplyView::Rejected(msg@),
            Reply::Listed(listing) => ReplyView::Listed(listing@),
            Reply::Save(snapshot) => ReplyView::Save(snapshot@),
            Reply::Undone(undone) => ReplyView::Undone(*undone),
            Reply::Unknown(word) => ReplyView::Unknown(word@),
        }
    }
}

/// The answer to `line` on the document `dm`.
///
/// The line `exit`, written so and with nothing round it, ends the sitting.
/// Otherwise the first word is the command, written in lower case: `create`,
/// `list`, `save` or `undo`.
pub open spec fn answer(
    dm: DataModelView,
    line: Seq<char>,
    numbers: Seq<Option<Scalar>>,
) -> ReplyView {
    let words = words_of(line);
    let name = text_at(words, 0, ""@);
    if line == "exit"@ {
        ReplyView::Exit
    } else if name == "create"@ {
        match created(words, numbers, decimal(dm.id_counter + 1)) {
            Some(_) => ReplyView::Created,
            None => ReplyView::Rejected("Invalid node type"@),
        }
    } else if name == "list"@ {
        ReplyView::Listed(dm.listing(text_at(words, 1, ""@), text_at(words, 2, ""@)))
    } else if name == "save"@ {
        ReplyView::Save(dm.snapshot())
    } else if name == "undo"@ {
        ReplyView::Undone(dm.undo_stack.len() > 0)
    } else {
        ReplyView::Unknown(name)
    }
}

/// The document after `line` was answered.
pub open spec fn outcome(
    dm: DataModelView,
    line: Seq<char>,
    numbers: Seq<Option<Scalar>>,
) -> DataModelView {
    let words = words_of(line);
    let name = text_at(words, 0, ""@);
    if line == "exit"@ {
        dm
    } else if name == "create"@ {
        match created(words, numbers, decimal(dm.id_counter + 1)) {
            Some(op) => dm.advance().execute(op),
            None => dm,
        }
    } else if name == "list"@ || name == "save"@ {
        dm
    } else if name == "undo"@ {
        dm.undo()
    } else {
        dm
    }
}

/// Answers one line of input. `numbers` holds, for each word of the line in
/// order, the number that the word reads as, or nothing where it is no
/// number.
pub fn interpret(dm: &mut DataModel, line: &str, numbers: &Vec<Option<Scalar>>) -> (r: Reply)
    requires
        old(dm)@.id_counter < u64::MAX,
    ensures
        r@ == answer(old(dm)@, line@, numbers@),
        final(dm)@ == outcome(old(dm)@, line@, numbers@),
{
    if same(line, "exit") {
        return Reply::Exit;
    }
    let words = split_whitespace(line);
    let command_name = text_arg(&words, 0, "");
    if same(command_name.as_str(), "create") {
        match execute_create(dm, &words, numbers) {
            Ok(_) => Reply::Created,
            Err(msg) => Reply::Rejected(msg),
        }
    } else if same(command_name.as_str(), "list") {
        Reply::Listed(execute_list(dm, &words))
    } else if same(command_name.as_str(), "save") {
        Reply::Save(dm.snapshot())
    } else if same(command_name.as_str(), "undo") {
        Reply::Undone(dm.undo())
    } else {
        Reply::Unknown(command_name)
    }
}

} // verus!
