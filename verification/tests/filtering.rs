use ddv::filter::filter_indices;
use ddv::filter::substring_index;
use ddv::views::FilterState;
use ddv::views::TableListView;
use ddv::config::UiTableListConfig;
use ddv::data::Table;
use ddv::event::KeyInput;
use ddv::event::UserEvent;

fn rows(names: &[&str]) -> Vec<String> {
    names.iter().map(|n| n.to_string()).collect()
}

#[test]
fn filtering_selects_matching_rows_in_order() {
    let mut names = vec![String::from("row")];
    names = (0..10).map(|i| format!("row {i}")).collect();
    names[2] = String::from("xx abc yy");
    names[7] = String::from("zzabczz");
    let view = filter_indices(&names, "abc");
    assert_eq!(view, vec![2, 7]);
    let cleared = filter_indices(&names, "");
    assert_eq!(cleared, (0..10).collect::<Vec<usize>>());
}

#[test]
fn filtering_twice_with_the_same_query_is_identical() {
    let names = rows(&["alpha", "beta", "gamma", "alphabet"]);
    let first = filter_indices(&names, "alp");
    let second = filter_indices(&names, "alp");
    assert_eq!(first, second);
    assert_eq!(first, vec![0, 3]);
}

#[test]
fn filtering_is_case_insensitive_both_ways() {
    let names = rows(&["FooBar", "other"]);
    assert_eq!(filter_indices(&names, "foobar"), vec![0]);
    assert_eq!(filter_indices(&names, "OBA"), vec![0]);
    assert_eq!(filter_indices(&names, "oth"), vec![1]);
    assert_eq!(filter_indices(&names, "missing"), Vec::<usize>::new());
}

#[test]
fn substring_index_finds_the_first_occurrence() {
    assert_eq!(substring_index("banana", "an"), Some(1));
    assert_eq!(substring_index("banana", "na"), Some(2));
    assert_eq!(substring_index("banana", ""), Some(0));
    assert_eq!(substring_index("", ""), Some(0));
    assert_eq!(substring_index("short", "longer than hay"), None);
    assert_eq!(substring_index("abc", "d"), None);
}

fn table_list(names: &[&str]) -> TableListView {
    let tables = names.iter().map(|n| Table { name: n.to_string() }).collect();
    let (view, _events) = TableListView::new(tables, UiTableListConfig::default());
    view
}

fn type_query(view: &mut TableListView, query: &str) {
    for c in query.chars() {
        view.handle_user_key_event(&Vec::new(), KeyInput::Char(c));
    }
}

#[test]
fn filter_machine_edits_applies_and_resets() {
    let mut view = table_list(&["Users", "Orders", "Logs", "UserSessions"]);
    view.list_state.set_height(3);
    assert!(matches!(view.filter_state, FilterState::Idle));

    view.handle_user_key_event(&vec![UserEvent::QuickFilter], KeyInput::Other);
    assert!(matches!(view.filter_state, FilterState::Editing));

    type_query(&mut view, "user");
    assert_eq!(view.view_indices, vec![0, 3]);

    view.handle_user_key_event(&vec![UserEvent::Confirm], KeyInput::Other);
    assert!(matches!(view.filter_state, FilterState::Applied));
    assert_eq!(view.view_indices, vec![0, 3]);

    // select the second filtered row, then cancel: the absolute row stays selected
    view.handle_user_key_event(&vec![UserEvent::Down], KeyInput::Other);
    assert_eq!(view.list_state.selected, 1);
    view.handle_user_key_event(&vec![UserEvent::Reset], KeyInput::Other);
    assert!(matches!(view.filter_state, FilterState::Idle));
    assert_eq!(view.view_indices, vec![0, 1, 2, 3]);
    assert_eq!(view.list_state.selected, 3);
}

#[test]
fn confirming_an_empty_buffer_leaves_filtering() {
    let mut view = table_list(&["Users", "Orders"]);
    view.handle_user_key_event(&vec![UserEvent::QuickFilter], KeyInput::Other);
    assert!(matches!(view.filter_state, FilterState::Editing));
    view.handle_user_key_event(&vec![UserEvent::Confirm], KeyInput::Other);
    assert!(matches!(view.filter_state, FilterState::Idle));
    assert_eq!(view.view_indices, vec![0, 1]);
}

#[test]
fn a_query_without_matches_rolls_the_filter_back() {
    let mut view = table_list(&["Users", "Orders"]);
    view.handle_user_key_event(&vec![UserEvent::QuickFilter], KeyInput::Other);
    type_query(&mut view, "nothing");
    assert_eq!(view.view_indices, Vec::<usize>::new());
    view.handle_user_key_event(&vec![UserEvent::Confirm], KeyInput::Other);
    assert!(matches!(view.filter_state, FilterState::Idle));
    assert_eq!(view.view_indices, vec![0, 1]);
}

#[test]
fn filter_buffer_supports_cursor_editing() {
    let mut view = table_list(&["Users"]);
    view.handle_user_key_event(&vec![UserEvent::QuickFilter], KeyInput::Other);
    type_query(&mut view, "usr");
    view.handle_user_key_event(&Vec::new(), KeyInput::Left);
    view.handle_user_key_event(&Vec::new(), KeyInput::Char('e'));
    assert_eq!(view.filter_input.value(), "user");
    view.handle_user_key_event(&Vec::new(), KeyInput::Backspace);
    view.handle_user_key_event(&Vec::new(), KeyInput::End);
    view.handle_user_key_event(&Vec::new(), KeyInput::Backspace);
    assert_eq!(view.filter_input.value(), "us");
}
