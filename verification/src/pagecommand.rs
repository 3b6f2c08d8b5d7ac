//! The commands that create a page.
use vstd::prelude::*;
use crate::command::Command;
use crate::datamodel::{DataModel, DataModelView};
use crate::page::{Page, PageView};

verus! {

/// What a command that creates a page holds, as plain values.
pub struct PageCommandView {
    pub id: Seq<char>,
    pub name: Seq<char>,
    pub description: Seq<char>,
}

impl PageCommandView {
    /// The page that the command creates: one without nodes and without a
    /// selection.
    pub open spec fn page(self) -> PageView {
        PageView::blank(self.id, self.name, self.description)
    }
}

/// Creates a page and makes it the current page.
#[derive(Debug, PartialEq)]
pub struct PageCommand {
    id: String,
    name: String,
    description: String,
}

impl View for PageCommand {
    type V = PageCommandView;

    closed spec fn view(&self) -> PageCommandView {
        PageCommandView { id: self.id@, name: self.name@, description: self.description@ }
    }
}

impl PageCommand {
    pub fn new(id: String, name: String, description: String) -> (cmd: Self)
        ensures
            cmd@ == (PageCommandView { id: id@, name: name@, description: description@ }),
    {
        PageCommand { id, name, description }
    }

    /// The identifier of the page that the command creates.
    pub fn id(&self) -> (id: &str)
        ensures
            id@ == self@.id,
    {
        self.id.as_str()
    }

    /// The name of the page that the command creates.
    pub fn name(&self) -> (name: &str)
        ensures
            name@ == self@.name,
    {
        self.name.as_str()
    }

    /// The description of the page that the command creates.
    pub fn description(&self) -> (description: &str)
        ensures
            description@ == self@.description,
    {
        self.description.as_str()
    }
}

impl Command for PageCommand {
    open spec fn applied(&self, dm: DataModelView) -> DataModelView {
        dm.insert_page(self@.page())
    }

    open spec fn reverted(&self, dm: DataModelView) -> DataModelView {
        dm.remove_page(self@.id)
    }

    fn execute(&self, dm: &mut DataModel) {
        let page = Page::new(self.id.clone(), self.name.clone(), self.description.clone());
        dm.insert_page(page);
    }

    fn undo(&self, dm: &mut DataModel) {
        dm.remove_page(self.id.as_str());
    }
}

/// Creates a page and makes it the current page.
#[derive(Debug, PartialEq)]
pub struct CreatePageCommand {
    id: String,
    name: String,
    description: String,
}

impl View for CreatePageCommand {
    type V = PageCommandView;

    closed spec fn view(&self) -> PageCommandView {
        PageCommandView { id: self.id@, name: self.name@, description: self.description@ }
    }
}

impl CreatePageCommand {
    pub fn new(id: String, name: String, description: String) -> (cmd: Self)
        ensures
            cmd@ == (PageCommandView { id: id@, name: name@, description: description@ }),
    {
        CreatePageCommand { id, name, description }
    }

    /// The identifier of the page that the command creates.
    pub fn id(&self) -> (id: &str)
        ensures
            id@ == self@.id,
    {
        self.id.as_str()
    }

    /// The name of the page that the command creates.
    pub fn name(&self) -> (name: &str)
        ensures
            name@ == self@.name,
    {
        self.name.as_str()
    }

    /// The description of the page that the command creates.
    pub fn description(&self) -> (description: &str)
        ensures
            description@ == self@.description,
    {
        self.description.as_str()
    }
}

impl Command for CreatePageCommand {
    open spec fn applied(&self, dm: DataModelView) -> DataModelView {
        dm.insert_page(self@.page())
    }

    open spec fn reverted(&self, dm: DataModelView) -> DataModelView {
        dm.remove_page(self@.id)
    }

    fn execute(&self, dm: &mut DataModel) {
        let page = Page::new(self.id.clone(), self.name.clone(), self.description.clone());
        dm.insert_page(page);
    }

    fn undo(&self, dm: &mut DataModel) {
        dm.remove_page(self.id.as_str());
    }
}

} // verus!
