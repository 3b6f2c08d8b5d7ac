use drawdoc::arc::Arc;
use drawdoc::arccommand::{ArcCommand, CreateArcCommand};
use drawdoc::command::{Command, Operation};
use drawdoc::commandhandler::CommandHandler;
use drawdoc::datamodel::DataModel;
use drawdoc::drawable::Drawable;
use drawdoc::exportcommand::ExportCommand;
use drawdoc::line::Line;
use drawdoc::linecommand::{CreateLineCommand, LineCommand};
use drawdoc::node::Node;
use drawdoc::page::Page;
use drawdoc::pagecommand::{CreatePageCommand, PageCommand};
use drawdoc::scalar::Scalar;

fn num(x: f64) -> Scalar {
    Scalar::from_bits(x.to_bits())
}

fn create_line(id: String, x1: f64, y1: f64, x2: f64, y2: f64) -> CreateLineCommand {
    CreateLineCommand::new(id, num(x1), num(y1), num(x2), num(y2))
}

#[test]
fn create_line_then_undo_leaves_no_node_and_keeps_the_counter() {
    let mut dm = DataModel::new();
    let id = dm.next_id();
    assert_eq!(id, "1");
    dm.execute_command(Operation::CreateLine(create_line(id.clone(), 1.0, 2.0, 3.0, 4.0)));
    assert_eq!(
        dm.get_node("1"),
        Some(&Drawable::Line(Line::new("1".to_string(), num(1.0), num(2.0), num(3.0), num(4.0))))
    );
    assert_eq!(dm.list_commands().len(), 1);
    assert!(dm.undo());
    assert!(dm.get_node("1").is_none());
    assert!(dm.get_nodes().is_empty());
    assert!(dm.list_commands().is_empty());
    assert_eq!(dm.id_counter(), 1);
    let next = dm.next_id();
    assert_eq!(next, "2");
    assert_ne!(next, id);
}

#[test]
fn create_line_then_undo_for_odd_numbers() {
    for (x1, y1, x2, y2) in [
        (0.0, 0.0, 0.0, 0.0),
        (-1.5, 2.5e300, f64::MIN_POSITIVE, -0.0),
        (f64::INFINITY, f64::NEG_INFINITY, f64::MAX, f64::MIN),
    ] {
        let mut dm = DataModel::new();
        let mut handler = CommandHandler::new();
        let id = dm.next_id();
        handler.execute(&mut dm, Operation::CreateLine(create_line(id.clone(), x1, y1, x2, y2)));
        assert!(dm.get_node(&id).is_some());
        assert!(handler.undo(&mut dm));
        assert!(dm.get_node(&id).is_none());
        assert_ne!(dm.next_id(), id);
    }
}

#[test]
fn undo_on_empty_history_changes_nothing() {
    let mut dm = DataModel::new();
    dm.insert_page(Page::new("p".to_string(), "n".to_string(), "d".to_string()));
    assert!(!dm.undo());
    assert!(dm.undo_pop().is_none());
    let mut handler = CommandHandler::default();
    assert!(!handler.undo(&mut dm));
    assert_eq!(dm.get_pages().len(), 1);
    assert!(handler.list_commands().is_empty());
}

#[test]
fn handler_takes_back_the_newest_command_first() {
    let mut dm = DataModel::new();
    let mut handler = CommandHandler::new();
    let a = dm.next_id();
    let b = dm.next_id();
    handler.execute(&mut dm, Operation::CreateLine(create_line(a.clone(), 0.0, 0.0, 1.0, 1.0)));
    handler.execute(
        &mut dm,
        Operation::CreateArc(CreateArcCommand::new(
            b.clone(),
            num(0.0),
            num(0.0),
            num(2.0),
            num(0.0),
            num(180.0),
        )),
    );
    assert_eq!(handler.list_commands().len(), 2);
    assert_eq!(
        handler.list_commands()[0],
        Operation::CreateLine(create_line("1".to_string(), 0.0, 0.0, 1.0, 1.0))
    );
    assert!(handler.undo(&mut dm));
    assert!(dm.get_node(&b).is_none());
    assert!(dm.get_node(&a).is_some());
    assert_eq!(handler.list_commands().len(), 1);
    assert!(handler.undo(&mut dm));
    assert!(dm.get_node(&a).is_none());
    assert!(!handler.undo(&mut dm));
}

#[test]
fn undone_command_is_not_kept_for_redo() {
    let mut dm = DataModel::new();
    let id = dm.next_id();
    dm.execute_command(Operation::CreateLine(create_line(id, 0.0, 0.0, 1.0, 1.0)));
    let popped = dm.undo_pop();
    assert_eq!(popped, Some(Operation::CreateLine(create_line("1".to_string(), 0.0, 0.0, 1.0, 1.0))));
    assert!(dm.list_commands().is_empty());
    assert!(!dm.undo());
    assert!(dm.get_nodes().is_empty());
}

#[test]
fn add_command_remembers_without_running() {
    let mut dm = DataModel::new();
    dm.add_command(Operation::CreateLine(create_line("9".to_string(), 0.0, 0.0, 1.0, 1.0)));
    assert!(dm.get_nodes().is_empty());
    assert_eq!(dm.list_commands().len(), 1);
    dm.insert_node(Drawable::Line(Line::with_default_extent("9".to_string())));
    assert!(dm.undo());
    assert!(dm.get_node("9").is_none());
}

#[test]
fn page_command_creates_the_current_page_and_undo_removes_it() {
    let mut dm = DataModel::new();
    let cmd = PageCommand::new("1".to_string(), "front".to_string(), "the first".to_string());
    assert_eq!(cmd.id(), "1");
    assert_eq!(cmd.name(), "front");
    assert_eq!(cmd.description(), "the first");
    cmd.execute(&mut dm);
    assert_eq!(dm.get_current_page_id(), "1");
    let page = dm.get_page("1").unwrap();
    assert_eq!(page.get_name(), "front");
    assert_eq!(page.get_description(), "the first");
    assert!(page.get_node_ids().is_empty());
    cmd.undo(&mut dm);
    assert!(dm.get_page("1").is_none());
    assert_eq!(dm.get_current_page_id(), "1");
}

#[test]
fn create_page_command_does_what_page_command_does() {
    let mut dm = DataModel::new();
    let cmd = CreatePageCommand::new("3".to_string(), "n".to_string(), "d".to_string());
    assert_eq!(cmd.id(), "3");
    assert_eq!(cmd.name(), "n");
    assert_eq!(cmd.description(), "d");
    cmd.execute(&mut dm);
    assert_eq!(dm.get_page("3"), Some(&Page::new("3".to_string(), "n".to_string(), "d".to_string())));
    assert_eq!(dm.get_current_page_id(), "3");
    cmd.undo(&mut dm);
    assert!(dm.get_pages().is_empty());
}

#[test]
fn line_command_puts_the_line_on_the_current_page() {
    let mut dm = DataModel::new();
    dm.insert_page(Page::new("p".to_string(), "n".to_string(), "d".to_string()));
    let cmd = LineCommand::new("7".to_string(), num(1.0), num(2.0), num(3.0), num(4.0));
    cmd.execute(&mut dm);
    assert_eq!(dm.get_node("7"), Some(&Drawable::Line(cmd.line())));
    assert_eq!(dm.get_page("p").unwrap().get_node_ids(), &vec!["7".to_string()]);
    cmd.undo(&mut dm);
    assert!(dm.get_node("7").is_none());
    assert_eq!(dm.get_page("p").unwrap().get_node_ids(), &vec!["7".to_string()]);
    let ids = dm.get_page("p").unwrap().get_node_ids().clone();
    assert!(dm.resolve(&ids).is_empty());
}

#[test]
fn line_command_without_current_page_only_stores_the_line() {
    let mut dm = DataModel::new();
    let cmd = LineCommand::new("7".to_string(), num(1.0), num(2.0), num(3.0), num(4.0));
    cmd.execute(&mut dm);
    assert_eq!(
        cmd.line(),
        Line::new("7".to_string(), num(1.0), num(2.0), num(3.0), num(4.0))
    );
    assert_eq!(dm.get_nodes(), vec![&Drawable::Line(cmd.line())]);
    assert!(dm.get_pages().is_empty());
}

#[test]
fn create_line_command_leaves_pages_alone() {
    let mut dm = DataModel::new();
    dm.insert_page(Page::new("p".to_string(), "n".to_string(), "d".to_string()));
    let cmd = create_line("8".to_string(), 1.0, 2.0, 3.0, 4.0);
    cmd.execute(&mut dm);
    assert_eq!(dm.get_node("8"), Some(&Drawable::Line(cmd.line())));
    assert!(dm.get_page("p").unwrap().get_node_ids().is_empty());
    cmd.undo(&mut dm);
    assert!(dm.get_nodes().is_empty());
}

#[test]
fn arc_commands_store_and_remove_the_arc() {
    let mut dm = DataModel::new();
    let arc = ArcCommand::new("1".to_string(), num(1.0), num(2.0), num(3.0), num(10.0), num(20.0));
    let create =
        CreateArcCommand::new("2".to_string(), num(4.0), num(5.0), num(6.0), num(30.0), num(40.0));
    arc.execute(&mut dm);
    create.execute(&mut dm);
    assert_eq!(
        dm.get_node("1"),
        Some(&Drawable::Arc(Arc::new(
            "1".to_string(),
            num(1.0),
            num(2.0),
            num(3.0),
            num(10.0),
            num(20.0)
        )))
    );
    assert_eq!(dm.get_node("2"), Some(&Drawable::Arc(create.arc())));
    assert_eq!(arc.arc().get_id(), "1");
    arc.undo(&mut dm);
    assert!(dm.get_node("1").is_none());
    assert!(dm.get_node("2").is_some());
    create.undo(&mut dm);
    assert!(dm.get_nodes().is_empty());
}

#[test]
fn export_command_leaves_the_document_alone() {
    let mut dm = DataModel::new();
    dm.insert_node(Drawable::Line(Line::with_default_extent("1".to_string())));
    let cmd = ExportCommand::new("out.json".to_string());
    assert_eq!(cmd.filename, "out.json");
    cmd.execute(&mut dm);
    assert_eq!(dm.get_nodes().len(), 1);
    cmd.undo(&mut dm);
    assert_eq!(dm.get_nodes().len(), 1);
    let mut handler = CommandHandler::new();
    handler.execute(&mut dm, Operation::Export(cmd));
    assert_eq!(handler.list_commands().len(), 1);
    assert!(handler.undo(&mut dm));
    assert_eq!(dm.get_nodes().len(), 1);
}

#[test]
fn operation_runs_the_command_it_holds() {
    let mut dm = DataModel::new();
    let ops = vec![
        Operation::Page(PageCommand::new("1".to_string(), "a".to_string(), "b".to_string())),
        Operation::Line(LineCommand::new("2".to_string(), num(0.0), num(0.0), num(1.0), num(1.0))),
        Operation::Arc(ArcCommand::new(
            "3".to_string(),
            num(0.0),
            num(0.0),
            num(1.0),
            num(0.0),
            num(1.0),
        )),
        Operation::CreatePage(CreatePageCommand::new(
            "4".to_string(),
            "c".to_string(),
            "d".to_string(),
        )),
        Operation::CreateLine(create_line("5".to_string(), 0.0, 0.0, 1.0, 1.0)),
        Operation::CreateArc(CreateArcCommand::new(
            "6".to_string(),
            num(0.0),
            num(0.0),
            num(1.0),
            num(0.0),
            num(1.0),
        )),
    ];
    for op in &ops {
        op.execute(&mut dm);
    }
    let pages: Vec<&str> = dm.get_pages().iter().map(|p| p.get_id()).collect();
    let nodes: Vec<&str> = dm.get_nodes().iter().map(|n| n.get_id()).collect();
    assert_eq!(pages, vec!["1", "4"]);
    assert_eq!(nodes, vec!["2", "3", "5", "6"]);
    assert_eq!(dm.get_page("1").unwrap().get_node_ids(), &vec!["2".to_string()]);
    for op in &ops {
        op.undo(&mut dm);
    }
    assert!(dm.get_pages().is_empty());
    assert!(dm.get_nodes().is_empty());
}
