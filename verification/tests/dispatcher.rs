use ddv::app::App;
use ddv::app::Status;
use ddv::config::Config;
use ddv::data::KeySchemaType;
use ddv::data::Table;
use ddv::data::TableDescription;
use ddv::data::TableStatus;
use ddv::event::AppEvent;
use ddv::event::Command;
use ddv::event::KeyInput;
use ddv::event::UserEvent;
use ddv::view_stack::AppView;
use ddv::view_stack::ViewStack;
use ddv::views::InitView;
use ddv::views::HelpView;

fn description(name: &str) -> TableDescription {
    TableDescription {
        attribute_definitions: Vec::new(),
        table_name: name.to_string(),
        key_schema: Vec::new(),
        table_status: TableStatus::Active,
        creation_date_time: 0,
        provisioned_throughput: None,
        total_size_bytes: 0,
        item_count: 0,
        table_arn: String::new(),
        local_secondary_indexes: None,
        global_secondary_indexes: None,
        key_schema_type: KeySchemaType::Hash("id".to_string()),
    }
}

fn drain(app: &mut App, mut events: Vec<AppEvent>) -> Vec<Command> {
    let mut commands = Vec::new();
    while let Some(e) = events.pop() {
        let (mut cs, mut es) = app.process_event(e);
        commands.append(&mut cs);
        events.append(&mut es);
    }
    commands
}

#[test]
fn an_empty_scan_warns_and_keeps_the_table_list() {
    let mut app = App::new(Config::default());
    let tables = vec![Table { name: "Empty".to_string() }];
    let (_c, es) = app.process_event(AppEvent::CompleteInitialize(Ok(tables)));
    drain(&mut app, es);
    let depth = app.view_stack.stack.len();
    assert!(matches!(app.view_stack.stack.last(), Some(AppView::TableList(_))));

    let (_c, es) =
        app.process_event(AppEvent::CompleteLoadTableItems(description("Empty"), Ok(Vec::new())));
    assert_eq!(es.len(), 1);
    drain(&mut app, es);

    assert!(matches!(app.status, Status::Warning(ref m) if m == "Table Empty has no items"));
    assert_eq!(app.view_stack.stack.len(), depth);
    assert!(matches!(app.view_stack.stack.last(), Some(AppView::TableList(_))));
    assert!(!app.loading);
}

#[test]
fn a_nonempty_scan_opens_the_table_screen() {
    let mut app = App::new(Config::default());
    let tables = vec![Table { name: "Users".to_string() }];
    let (_c, es) = app.process_event(AppEvent::CompleteInitialize(Ok(tables)));
    drain(&mut app, es);

    let items = vec![ddv::data::Item {
        attributes: vec![ddv::data::ItemAttribute {
            name: "id".to_string(),
            kind: ddv::data::AttributeType::S,
            text: "u1".to_string(),
        }],
    }];
    let (_c, es) =
        app.process_event(AppEvent::CompleteLoadTableItems(description("Users"), Ok(items)));
    drain(&mut app, es);
    assert!(matches!(app.view_stack.stack.last(), Some(AppView::Table(_))));
    assert!(!app.loading);
}

#[test]
fn quit_always_wins_and_loading_swallows_other_keys() {
    let mut app = App::new(Config::default());
    assert!(app.loading);
    let (cs, _es) =
        app.process_event(AppEvent::Key(vec![UserEvent::Quit], KeyInput::Other));
    assert!(matches!(cs.as_slice(), [Command::Quit]));
    let (cs, es) = app.process_event(AppEvent::Key(vec![UserEvent::Down], KeyInput::Other));
    assert!(cs.is_empty());
    assert!(es.is_empty());
}

#[test]
fn an_error_during_init_quits_on_the_next_key() {
    let mut app = App::new(Config::default());
    app.loading = false;
    let (_c, es) = app.process_event(AppEvent::NotifyError(ddv::error::AppError::msg(
        "failed to list tables".to_string(),
    )));
    assert!(es.is_empty());
    assert!(matches!(app.status, Status::Error(ref m) if m == "failed to list tables"));
    let (cs, _es) = app.process_event(AppEvent::Key(vec![UserEvent::Down], KeyInput::Other));
    assert!(matches!(cs.as_slice(), [Command::Quit]));
}

#[test]
fn an_empty_table_listing_warns_instead_of_switching_screens() {
    let mut app = App::new(Config::default());
    let (_c, es) = app.process_event(AppEvent::CompleteInitialize(Ok(Vec::new())));
    drain(&mut app, es);
    assert!(matches!(app.status, Status::Warning(ref m) if m == "No tables found."));
    assert!(matches!(app.view_stack.stack.last(), Some(AppView::Init(_))));
    assert!(!app.loading);
}

#[test]
fn popping_the_only_screen_keeps_it() {
    let mut stack = ViewStack::new(AppView::Init(Box::new(InitView::new())));
    stack.pop();
    assert_eq!(stack.stack.len(), 1);
    stack.push(AppView::Help(Box::new(HelpView::new(Vec::new()))));
    assert_eq!(stack.stack.len(), 2);
    assert!(matches!(stack.stack.last(), Some(AppView::Help(_))));
    stack.pop();
    assert_eq!(stack.stack.len(), 1);
    assert!(matches!(stack.stack.last(), Some(AppView::Init(_))));
}

#[test]
fn notifications_clear_on_the_next_key() {
    let mut app = App::new(Config::default());
    app.loading = false;
    app.process_event(AppEvent::NotifySuccess("copied".to_string()));
    assert!(matches!(app.status, Status::Success(_)));
    app.process_event(AppEvent::Key(vec![UserEvent::Down], KeyInput::Other));
    assert!(matches!(app.status, Status::Idle));
}
