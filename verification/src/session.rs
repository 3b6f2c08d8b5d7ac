//! One editing session: a document and the history kept beside it.
use vstd::prelude::*;
use crate::command::{Operation, OperationView};
use crate::commandhandler::CommandHandler;
use crate::commandline::{lowercase_of, CommandLine};
use crate::arguments::text_at;
use crate::datamodel::{DataModel, DataModelView};
use crate::drawable::{Drawable, DrawableView};
use crate::ident::decimal;
use crate::line::{Line, LineView};
use crate::node::Node;
use crate::page::{Page, PageView};
use crate::scalar::Scalar;
use crate::text::{clone_texts, texts};
use crate::words::words_of;

verus! {

/// What became of a request to change a node.
#[derive(Clone, Copy, PartialEq, Eq, Structural, Debug)]
pub enum PatchOutcome {
    /// The node was changed.
    Patched,
    /// A node has the identifier, and it is of another kind than the patch.
    KindMismatch,
    /// No node has the identifier.
    NotFound,
    /// Nodes of the patch's kind cannot be changed.
    UnknownType,
}

/// What a session holds, as plain values.
pub struct SessionView {
    pub data_model: DataModelView,
    pub history: Seq<OperationView>,
}

/// The line that a new drawing starts with.
pub open spec fn default_line(id: Seq<char>) -> LineView {
    LineView {
        id,
        x1: Scalar::zero(),
        y1: Scalar::zero(),
        x2: Scalar::fifty(),
        y2: Scalar::fifty(),
    }
}

impl SessionView {
    /// The session after a page named `name` was created under the next
    /// identifier.
    pub open spec fn create_page(self, name: Seq<char>) -> Self {
        SessionView {
            data_model: self.data_model.advance().insert_page(
                PageView::blank(
                    decimal(self.data_model.id_counter + 1),
                    name,
                    "page description"@,
                ),
            ),
            ..self
        }
    }

    /// The session after a line was created under the next identifier and
    /// put on the current page.
    pub open spec fn create_line(self) -> Self {
        let id = decimal(self.data_model.id_counter + 1);
        SessionView {
            data_model: self.data_model.advance().insert_node(
                DrawableView::Line(default_line(id)),
            ).attach(id),
            ..self
        }
    }

    /// What becomes of the request to change a node as `patch` says.
    pub open spec fn patch_outcome(self, patch: DrawableView) -> PatchOutcome {
        match patch {
            DrawableView::Line(line) => match self.data_model.nodes.lookup(line.id) {
                Some(DrawableView::Line(_)) => PatchOutcome::Patched,
                Some(DrawableView::Arc(_)) => PatchOutcome::KindMismatch,
                None => PatchOutcome::NotFound,
            },
            DrawableView::Arc(_) => PatchOutcome::UnknownType,
        }
    }

    /// The session after the request to change a node as `patch` says: a
    /// line that is stored under the patch's identifier takes the end points
    /// of the patch and keeps its own identifier; in every other case
    /// nothing changes.
    pub open spec fn patch_node(self, patch: DrawableView) -> Self {
        match patch {
            DrawableView::Line(line) => match self.data_model.nodes.lookup(line.id) {
                Some(DrawableView::Line(stored)) => SessionView {
                    data_model: DataModelView {
                        nodes: self.data_model.nodes.insert(
                            line.id,
                            DrawableView::Line(LineView { id: stored.id, ..line }),
                        ),
                        ..self.data_model
                    },
                    ..self
                },
                _ => self,
            },
            DrawableView::Arc(_) => self,
        }
    }

    /// The selection of the current page; empty where there is no current
    /// page.
    pub open spec fn selection(self) -> Seq<Seq<char>> {
        match self.data_model.current_page() {
            Some(page) => page.selected_ids,
            None => Seq::empty(),
        }
    }

    /// The session after the current page took the selection `ids`; the
    /// session itself where there is no current page.
    pub open spec fn select(self, ids: Seq<Seq<char>>) -> Self {
        match self.data_model.current_page() {
            Some(page) => SessionView {
                data_model: self.data_model.with_current_page(page.with_selection(ids)),
                ..self
            },
            None => self,
        }
    }
}

/// A document together with the history of the commands that ran on it.
#[derive(Debug)]
pub struct Session {
    data_model: DataModel,
    command_handler: CommandHandler,
}

impl View for Session {
    type V = SessionView;

    closed spec fn view(&self) -> SessionView {
        SessionView { data_model: self.data_model@, history: self.command_handler@ }
    }
}

impl Session {
    /// A session on an empty document with an empty history.
    pub fn new() -> (session: Self)
        ensures
            session@ == (SessionView {
                data_model: DataModelView::empty(),
                history: Seq::empty(),
            }),
    {
        Session { data_model: DataModel::new(), command_handler: CommandHandler::new() }
    }

    /// The document.
    pub fn data_model(&self) -> (dm: &DataModel)
        ensures
            dm@ == self@.data_model,
    {
        &self.data_model
    }

    /// The history.
    pub fn command_handler(&self) -> (handler: &CommandHandler)
        ensures
            handler@ == self@.history,
    {
        &self.command_handler
    }

    /// Creates a page named `name` and makes it the current page. Returns
    /// the identifier of the page.
    pub fn create_page(&mut self, name: String) -> (id: String)
        requires
            old(self)@.data_model.id_counter < u64::MAX,
        ensures
            final(self)@ == old(self)@.create_page(name@),
            id@ == decimal(old(self)@.data_model.id_counter + 1),
    {
        let id = self.data_model.next_id();
        let page = Page::new(id.clone(), name, "page description".to_owned());
        self.data_model.insert_page(page);
        id
    }

    /// Creates a line with the default extent and puts it on the current
    /// page. Without a current page nothing is created and no identifier is
    /// taken.
    pub fn create_line(&mut self) -> (r: Result<Line, String>)
        requires
            old(self)@.data_model.id_counter < u64::MAX,
        ensures
            match r {
                Ok(line) => {
                    &&& old(self)@.data_model.current_page() is Some
                    &&& line@ == default_line(decimal(old(self)@.data_model.id_counter + 1))
                    &&& final(self)@ == old(self)@.create_line()
                },
                Err(msg) => {
                    &&& old(self)@.data_model.current_page() is None
                    &&& msg@ == "No current page found"@
                    &&& final(self)@ == old(self)@
                },
            },
    {
        if self.data_model.get_current_page().is_none() {
            return Err("No current page found".to_owned());
        }
        let id = self.data_model.next_id();
        let line = Line::with_default_extent(id.clone());
        let result = line.clone();
        self.data_model.insert_node(Drawable::Line(line));
        if let Some(page) = self.data_model.get_current_page_mut() {
            page.add_node_id(id.clone());
        }
        Ok(result)
    }

    /// Changes the node that `patch` names as `patch` says.
    pub fn patch_node(&mut self, patch: &Drawable) -> (r: PatchOutcome)
        ensures
            r == old(self)@.patch_outcome(patch@),
            final(self)@ == old(self)@.patch_node(patch@),
    {
        proof {
            if let DrawableView::Line(line) = patch@ {
                if old(self)@.data_model.nodes.contains_key(line.id) {
                    old(self)@.data_model.nodes.lemma_insert_same(line.id);
                }
            }
        }
        match patch {
            Drawable::Line(patch_line) => {
                let id = patch_line.get_id();
                match self.data_model.get_node_mut(id) {
                    Some(node) => match node {
                        Drawable::Line(line) => {
                            line.set_points(
                                patch_line.get_x1(),
                                patch_line.get_y1(),
                                patch_line.get_x2(),
                                patch_line.get_y2(),
                            );
                            PatchOutcome::Patched
                        },
                        Drawable::Arc(_) => PatchOutcome::KindMismatch,
                    },
                    None => PatchOutcome::NotFound,
                }
            },
            Drawable::Arc(_) => PatchOutcome::UnknownType,
        }
    }

    /// The selection of the current page; empty where there is no current
    /// page.
    pub fn get_selection(&self) -> (ids: Vec<String>)
        ensures
            texts(ids@) == self@.selection(),
    {
        match self.data_model.get_current_page() {
            Some(page) => clone_texts(page.get_selected_ids()),
            None => {
                let ids: Vec<String> = Vec::new();
                assert(texts(ids@) =~= Seq::empty());
                ids
            },
        }
    }

    /// Gives the current page the selection `ids`. Returns whether there is
    /// a current page; without one nothing changes.
    pub fn set_selection(&mut self, ids: Vec<String>) -> (found: bool)
        ensures
            found == (old(self)@.data_model.current_page() is Some),
            final(self)@ == old(self)@.select(texts(ids@)),
    {
        match self.data_model.get_current_page_mut() {
            Some(page) => {
                page.set_selected_ids(ids);
                true
            },
            None => false,
        }
    }

    /// Reads the command that `line` asks for, runs it on the document and
    /// remembers it in the history. `numbers` holds, for each word of the
    /// line in order, the number that the word reads as.
    ///
    /// Returns the name of the file to write the document to where the
    /// command was an export, and the message of the reader where the line
    /// asks for no command.
    pub fn run_command(&mut self, line: &str, numbers: &Vec<Option<Scalar>>) -> (r: Result<
        Option<String>,
        String,
    >)
        requires
            old(self)@.data_model.id_counter < u64::MAX,
        ensures
            ({
                let denoted = CommandLine::denoted(
                    lowercase_of(text_at(words_of(line@), 0, ""@)),
                    words_of(line@),
                    numbers@,
                    decimal(old(self)@.data_model.id_counter + 1),
                );
                match r {
                    Ok(export) => {
                        &&& denoted is Some
                        &&& match denoted.unwrap() {
                            OperationView::Export(filename) => {
                                &&& export is Some
                                &&& export.unwrap()@ == filename
                                &&& final(self)@.data_model == old(self)@.data_model
                            },
                            op => {
                                &&& export is None
                                &&& final(self)@.data_model == op.applied(
                                    old(self)@.data_model.advance(),
                                )
                            },
                        }
                        &&& final(self)@.history == old(self)@.history.push(denoted.unwrap())
                    },
                    Err(msg) => {
                        &&& denoted is None
                        &&& msg@ == "Unknown command"@
                        &&& final(self)@ == old(self)@
                    },
                }
            }),
    {
        match CommandLine::parse(&mut self.data_model, line, numbers) {
            Ok(cmd) => {
                let export = match &cmd {
                    Operation::Export(e) => Some(e.filename.clone()),
                    _ => None,
                };
                self.command_handler.execute(&mut self.data_model, cmd);
                Ok(export)
            },
            Err(msg) => Err(msg),
        }
    }

    /// Takes the newest command of the history back. Returns whether there
    /// was one.
    pub fn undo(&mut self) -> (undone: bool)
        ensures
            undone == (old(self)@.history.len() > 0),
            undone ==> final(self)@ == (SessionView {
                data_model: old(self)@.history.last().reverted(old(self)@.data_model),
                history: old(self)@.history.drop_last(),
            }),
            !undone ==> final(self)@ == old(self)@,
    {
        self.command_handler.undo(&mut self.data_model)
    }
}

} // verus!
