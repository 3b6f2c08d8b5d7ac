use drawdoc::arc::Arc;
use drawdoc::arccommand::CreateArcCommand;
use drawdoc::command::Operation;
use drawdoc::datamodel::DataModel;
use drawdoc::drawable::Drawable;
use drawdoc::line::Line;
use drawdoc::linecommand::{CreateLineCommand, LineCommand};
use drawdoc::node::{Node, NodeType};
use drawdoc::page::Page;
use drawdoc::pagecommand::CreatePageCommand;
use drawdoc::scalar::Scalar;
use drawdoc::session::{PatchOutcome, Session};
use drawdoc::shell::{execute_create, execute_list, interpret, Listed, Listing, Reply};
use drawdoc::snapshot::Snapshot;
use drawdoc::words::split_whitespace;

fn num(x: f64) -> Scalar {
    Scalar::from_bits(x.to_bits())
}

fn numbers_of(line: &str) -> Vec<Option<Scalar>> {
    split_whitespace(line).iter().map(|w| w.parse::<f64>().ok().map(num)).collect()
}

fn draw_on_page(dm: &mut DataModel, v: f64) {
    let id = dm.next_id();
    dm.execute_command(Operation::Line(LineCommand::new(id, num(v), num(v), num(v), num(v))));
}

fn say(dm: &mut DataModel, line: &str) -> Reply {
    let numbers = numbers_of(line);
    interpret(dm, line, &numbers)
}

#[test]
fn create_runs_and_remembers_the_command() {
    let mut dm = DataModel::new();
    assert_eq!(say(&mut dm, "create line 1 2 3 4"), Reply::Created);
    assert_eq!(
        dm.get_node("1"),
        Some(&Drawable::Line(Line::new("1".to_string(), num(1.0), num(2.0), num(3.0), num(4.0))))
    );
    assert_eq!(
        dm.list_commands(),
        &vec![Operation::CreateLine(CreateLineCommand::new(
            "1".to_string(),
            num(1.0),
            num(2.0),
            num(3.0),
            num(4.0)
        ))]
    );
}

#[test]
fn create_fills_in_defaults() {
    let mut dm = DataModel::new();
    assert_eq!(say(&mut dm, "create page"), Reply::Created);
    assert_eq!(say(&mut dm, "create arc 1 2 3"), Reply::Created);
    assert_eq!(say(&mut dm, "create line"), Reply::Created);
    assert_eq!(
        dm.list_commands(),
        &vec![
            Operation::CreatePage(CreatePageCommand::new(
                "1".to_string(),
                "new-page".to_string(),
                "page-description".to_string()
            )),
            Operation::CreateArc(CreateArcCommand::new(
                "2".to_string(),
                num(1.0),
                num(2.0),
                num(3.0),
                num(0.0),
                num(360.0)
            )),
            Operation::CreateLine(CreateLineCommand::new(
                "3".to_string(),
                num(0.0),
                num(0.0),
                num(0.0),
                num(0.0)
            )),
        ]
    );
    assert_eq!(dm.get_current_page_id(), "1");
    assert!(dm.get_page("1").unwrap().get_node_ids().is_empty());
}

#[test]
fn create_of_unknown_kind_is_rejected_and_takes_no_identifier() {
    let mut dm = DataModel::new();
    assert_eq!(say(&mut dm, "create circle 1 2"), Reply::Rejected("Invalid node type".to_string()));
    assert_eq!(say(&mut dm, "create"), Reply::Rejected("Invalid node type".to_string()));
    assert_eq!(say(&mut dm, "create Line"), Reply::Rejected("Invalid node type".to_string()));
    assert_eq!(dm.id_counter(), 0);
    assert!(dm.list_commands().is_empty());
    let words = vec!["create".to_string(), "nothing".to_string()];
    assert_eq!(execute_create(&mut dm, &words, &vec![]), Err("Invalid node type".to_string()));
}

#[test]
fn list_shows_what_is_asked_for() {
    let mut dm = DataModel::new();
    say(&mut dm, "create page cover front");
    say(&mut dm, "create line 1 2 3 4");
    say(&mut dm, "create arc 5 6 7");
    assert_eq!(say(&mut dm, "list commands"), Reply::Listed(Listing::Commands));
    assert_eq!(
        say(&mut dm, "list pages"),
        Reply::Listed(Listing::Pages(vec![Page::new(
            "1".to_string(),
            "cover".to_string(),
            "front".to_string()
        )]))
    );
    assert_eq!(
        say(&mut dm, "list page 1"),
        Reply::Listed(Listing::Page(Page::new(
            "1".to_string(),
            "cover".to_string(),
            "front".to_string()
        )))
    );
    assert_eq!(
        say(&mut dm, "list page 5"),
        Reply::Listed(Listing::PageNotFound("5".to_string()))
    );
    assert_eq!(say(&mut dm, "list page"), Reply::Listed(Listing::PageNotFound("".to_string())));
    assert_eq!(
        say(&mut dm, "list lines"),
        Reply::Listed(Listing::Lines(vec![
            Listed::Line(Line::new("2".to_string(), num(1.0), num(2.0), num(3.0), num(4.0))),
            Listed::Unhandled(NodeType::Arc),
        ]))
    );
    assert_eq!(say(&mut dm, "list arcs"), Reply::Listed(Listing::Unknown("arcs".to_string())));
    assert_eq!(say(&mut dm, "list"), Reply::Listed(Listing::Unknown("".to_string())));
    let words = vec!["list".to_string(), "pages".to_string()];
    assert!(matches!(execute_list(&dm, &words), Listing::Pages(_)));
}

#[test]
fn undo_save_exit_and_unknown() {
    let mut dm = DataModel::new();
    assert_eq!(say(&mut dm, "undo"), Reply::Undone(false));
    say(&mut dm, "create line 1 2 3 4");
    assert_eq!(say(&mut dm, "undo"), Reply::Undone(true));
    assert!(dm.get_nodes().is_empty());
    assert_eq!(say(&mut dm, "exit"), Reply::Exit);
    assert_eq!(say(&mut dm, " exit"), Reply::Unknown("exit".to_string()));
    assert_eq!(say(&mut dm, "Create line"), Reply::Unknown("Create".to_string()));
    assert_eq!(say(&mut dm, ""), Reply::Unknown("".to_string()));
    assert_eq!(
        say(&mut dm, "save"),
        Reply::Save(Snapshot { id_counter: 1, pages: vec![], nodes: vec![] })
    );
}

#[test]
fn snapshot_holds_counter_pages_and_nodes_in_order() {
    let mut dm = DataModel::new();
    say(&mut dm, "create page a b");
    draw_on_page(&mut dm, 1.0);
    say(&mut dm, "create arc 1 2 3 4 5");
    if let Some(p) = dm.get_current_page_mut() {
        p.set_selected_ids(vec!["2".to_string()]);
    }
    let snap = dm.snapshot();
    assert_eq!(snap.id_counter, 3);
    assert_eq!(
        snap.pages,
        vec![Page::from_parts(
            "1".to_string(),
            "a".to_string(),
            "b".to_string(),
            vec!["2".to_string()],
            vec![]
        )]
    );
    assert_eq!(
        snap.nodes,
        vec![
            Drawable::Line(Line::new("2".to_string(), num(1.0), num(1.0), num(1.0), num(1.0))),
            Drawable::Arc(Arc::new(
                "3".to_string(),
                num(1.0),
                num(2.0),
                num(3.0),
                num(4.0),
                num(5.0)
            )),
        ]
    );
}

#[test]
fn round_trip_after_creating_and_undoing() {
    let mut dm = DataModel::new();
    say(&mut dm, "create page a b");
    draw_on_page(&mut dm, 1.0);
    draw_on_page(&mut dm, 2.0);
    say(&mut dm, "create arc 1 2 3 4 5");
    say(&mut dm, "undo");
    say(&mut dm, "create page c d");
    say(&mut dm, "create line 9 8 7 6");
    let back = DataModel::restore(&dm.snapshot());
    assert_eq!(back.get_pages(), dm.get_pages());
    assert_eq!(back.get_nodes(), dm.get_nodes());
    assert_eq!(back.id_counter(), dm.id_counter());
    assert_eq!(back.snapshot(), dm.snapshot());
    assert_eq!(back.get_current_page_id(), "");
    assert!(back.list_commands().is_empty());
    for page in dm.get_pages() {
        assert_eq!(back.get_page(page.get_id()), Some(page));
    }
    for node in dm.get_nodes() {
        assert_eq!(back.get_node(node.get_id()), Some(node));
    }
}

#[test]
fn restore_stores_every_record_under_its_own_identifier() {
    let snap = Snapshot {
        id_counter: 41,
        pages: vec![
            Page::new("p".to_string(), "one".to_string(), "".to_string()),
            Page::new("q".to_string(), "two".to_string(), "".to_string()),
            Page::new("p".to_string(), "three".to_string(), "".to_string()),
        ],
        nodes: vec![Drawable::Line(Line::with_default_extent("n".to_string()))],
    };
    let mut dm = DataModel::restore(&snap);
    let names: Vec<&str> = dm.get_pages().iter().map(|p| p.get_name()).collect();
    assert_eq!(names, vec!["three", "two"]);
    assert_eq!(dm.get_nodes().len(), 1);
    assert_eq!(dm.next_id(), "42");
}

#[test]
fn session_creates_pages_and_lines() {
    let mut s = Session::new();
    assert_eq!(s.create_line(), Err("No current page found".to_string()));
    assert_eq!(s.data_model().id_counter(), 0);
    assert_eq!(s.create_page("cover".to_string()), "1");
    let page = s.data_model().get_current_page().unwrap();
    assert_eq!(page.get_name(), "cover");
    assert_eq!(page.get_description(), "page description");
    let line = s.create_line();
    assert_eq!(line, Ok(Line::new("2".to_string(), num(0.0), num(0.0), num(50.0), num(50.0))));
    assert_eq!(s.data_model().get_page("1").unwrap().get_node_ids(), &vec!["2".to_string()]);
    assert!(s.data_model().get_node("2").is_some());
    assert!(s.command_handler().list_commands().is_empty());
}

#[test]
fn session_patches_lines_only() {
    let mut s = Session::new();
    s.create_page("cover".to_string());
    s.create_line().unwrap();
    s.run_command("arc 1 2 3", &numbers_of("arc 1 2 3")).unwrap();
    let patch = Drawable::Line(Line::new("2".to_string(), num(5.0), num(6.0), num(7.0), num(8.0)));
    assert_eq!(s.patch_node(&patch), PatchOutcome::Patched);
    assert_eq!(s.data_model().get_node("2"), Some(&patch));
    let on_arc = Drawable::Line(Line::new("3".to_string(), num(5.0), num(6.0), num(7.0), num(8.0)));
    assert_eq!(s.patch_node(&on_arc), PatchOutcome::KindMismatch);
    assert_eq!(*s.data_model().get_node("3").unwrap().get_node_type(), NodeType::Arc);
    let missing = Drawable::Line(Line::with_default_extent("77".to_string()));
    assert_eq!(s.patch_node(&missing), PatchOutcome::NotFound);
    let arc = Drawable::Arc(Arc::new("3".to_string(), num(0.0), num(0.0), num(1.0), num(0.0), num(1.0)));
    assert_eq!(s.patch_node(&arc), PatchOutcome::UnknownType);
    assert_eq!(s.data_model().get_nodes().len(), 2);
}

#[test]
fn session_selection_belongs_to_the_current_page() {
    let mut s = Session::new();
    assert!(s.get_selection().is_empty());
    assert!(!s.set_selection(vec!["1".to_string()]));
    s.create_page("a".to_string());
    assert!(s.set_selection(vec!["5".to_string(), "gone".to_string()]));
    assert_eq!(s.get_selection(), vec!["5".to_string(), "gone".to_string()]);
    s.create_page("b".to_string());
    assert!(s.get_selection().is_empty());
}

#[test]
fn session_runs_commands_and_takes_them_back() {
    let mut s = Session::new();
    assert_eq!(s.run_command("page cover", &numbers_of("page cover")), Ok(None));
    assert_eq!(s.run_command("Line 1 2 3 4", &numbers_of("Line 1 2 3 4")), Ok(None));
    assert_eq!(
        s.run_command("export out.json", &numbers_of("export out.json")),
        Ok(Some("out.json".to_string()))
    );
    assert_eq!(s.run_command("bogus", &numbers_of("bogus")), Err("Unknown command".to_string()));
    assert_eq!(s.command_handler().list_commands().len(), 3);
    assert_eq!(s.data_model().get_page("1").unwrap().get_node_ids(), &vec!["2".to_string()]);
    assert!(s.undo());
    assert!(s.data_model().get_node("2").is_some());
    assert!(s.undo());
    assert!(s.data_model().get_node("2").is_none());
    assert!(s.undo());
    assert!(s.data_model().get_pages().is_empty());
    assert!(!s.undo());
    assert_eq!(s.data_model().id_counter(), 2);
}
