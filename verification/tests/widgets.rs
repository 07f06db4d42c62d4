use ddv::scroll_list::ScrollListState;
use ddv::table_state::TableState;
use ddv::scroll_lines::ScrollLinesOptions;
use ddv::scroll_lines::ScrollLinesState;

#[test]
fn scroll_list_walks_three_names_in_a_two_row_window() {
    // a table list of three names in a viewport two rows tall
    let mut state = ScrollListState::new(3);
    state.set_height(2);
    assert_eq!(state.selected, 0);
    assert_eq!(state.offset, 0);
    state.select_next();
    assert_eq!(state.selected, 1);
    assert_eq!(state.offset, 0);
    state.select_next();
    assert_eq!(state.selected, 2);
    assert_eq!(state.offset, 1);
    state.select_next();
    assert_eq!(state.selected, 0);
    assert_eq!(state.offset, 0);
}

#[test]
fn scroll_list_wraps_backwards_and_clamps_pages() {
    let mut state = ScrollListState::new(5);
    state.set_height(2);
    state.select_prev();
    assert_eq!(state.selected, 4);
    assert_eq!(state.offset, 3);
    state.select_first();
    state.select_next_page();
    assert_eq!(state.selected, 2);
    state.select_next_page();
    assert_eq!(state.selected, 4);
    assert_eq!(state.offset, 3);
    state.select_prev_page();
    assert_eq!(state.selected, 2);
    state.select_prev_page();
    assert_eq!(state.selected, 0);
    assert_eq!(state.offset, 0);
}

#[test]
fn scroll_list_is_inert_when_empty() {
    let mut state = ScrollListState::new(0);
    state.set_height(4);
    state.select_next();
    state.select_prev();
    state.select_next_page();
    state.select_last();
    assert_eq!(state.selected, 0);
    assert_eq!(state.offset, 0);
}

#[test]
fn table_column_selection_advances_offset_minimally() {
    // five rows, three columns of width ten, viewport 25 columns wide
    let mut state = TableState::new(5, 3, vec![10, 10, 10]);
    state.set_area(25, 4);
    assert_eq!(state.selected_col, None);
    state.select_next_col();
    assert_eq!(state.selected_col, Some(0));
    assert_eq!(state.offset_col, 0);
    state.select_next_col();
    assert_eq!(state.selected_col, Some(1));
    assert_eq!(state.offset_col, 0);
    state.select_next_col();
    assert_eq!(state.selected_col, Some(2));
    assert_eq!(state.offset_col, 1);
}

#[test]
fn table_column_selection_exits_to_row_mode_on_the_left() {
    let mut state = TableState::new(2, 2, vec![4, 4]);
    state.set_area(20, 4);
    state.select_prev_col();
    assert_eq!(state.selected_col, None);
    state.select_next_col();
    assert_eq!(state.selected_col, Some(0));
    state.select_prev_col();
    assert_eq!(state.selected_col, None);
    state.select_prev_col();
    assert_eq!(state.selected_col, None);
}

#[test]
fn widen_then_narrow_restores_the_width() {
    let mut state = TableState::new(3, 2, vec![5, 7]);
    state.set_area(30, 4);
    state.select_next_col();
    assert_eq!(state.selected_col_width(), Some(5));
    state.widen_col();
    assert_eq!(state.selected_col_width(), Some(6));
    state.narrow_col();
    assert_eq!(state.selected_col_width(), Some(5));
}

#[test]
fn narrowing_a_width_one_column_is_a_no_op() {
    let mut state = TableState::new(1, 1, vec![1]);
    state.set_area(10, 2);
    state.select_next_col();
    state.narrow_col();
    assert_eq!(state.selected_col_width(), Some(1));
}

#[test]
fn selected_item_position_accounts_for_scrolled_columns() {
    let mut state = TableState::new(4, 3, vec![10, 10, 10]);
    state.set_area(25, 4);
    state.select_next_col();
    state.select_next_col();
    state.select_next_col();
    // the selection sits on column 2 with column 0 scrolled out
    assert_eq!(state.selected_item_position(), Some((11, 0)));
    state.select_next_row();
    assert_eq!(state.selected_item_position(), Some((11, 1)));
}

#[test]
fn scroll_lines_jumps_to_both_ends() {
    let lines: Vec<String> = (0..7).map(|i| format!("line {i}")).collect();
    let mut state = ScrollLinesState::new(lines, ScrollLinesOptions::new(true, false));
    state.scroll_to_end();
    assert_eq!(state.v_offset, 6);
    state.scroll_to_top();
    assert_eq!(state.v_offset, 0);
}

#[test]
fn page_forward_without_wrap_reaches_the_last_line() {
    let lines: Vec<String> = (0..5).map(|i| format!("line {i}")).collect();
    let mut state = ScrollLinesState::new(lines, ScrollLinesOptions::new(true, false));
    state.scroll_page_forward(40, 2);
    assert_eq!(state.v_offset, 2);
    state.scroll_page_forward(40, 2);
    assert_eq!(state.v_offset, 4);
    state.scroll_page_forward(40, 2);
    assert_eq!(state.v_offset, 4);
    state.scroll_page_backward(40, 2);
    assert_eq!(state.v_offset, 2);
    state.scroll_page_backward(40, 2);
    assert_eq!(state.v_offset, 0);
}

#[test]
fn page_forward_counts_wrapped_rows() {
    let lines = vec![
        String::from("aaaa bbbb cccc dddd"),
        String::from("x"),
        String::from("y"),
        String::from("z"),
    ];
    // wrapped to nine columns the first line takes two visual rows, so one
    // page of height two advances a single logical line
    let mut state = ScrollLinesState::new(lines.clone(), ScrollLinesOptions::new(false, true));
    state.scroll_page_forward(9, 2);
    assert_eq!(state.v_offset, 1);
    // without wrapping the same page advances two logical lines
    let mut flat = ScrollLinesState::new(lines, ScrollLinesOptions::new(false, false));
    flat.scroll_page_forward(9, 2);
    assert_eq!(flat.v_offset, 2);
}

#[test]
fn wide_characters_count_double_in_the_content_width() {
    let state = ScrollLinesState::new(
        vec![String::from("あい")],
        ScrollLinesOptions::new(true, false),
    );
    assert_eq!(state.max_line_width, 4);
    assert_eq!(state.max_digits, 1);
    assert_eq!(state.max_width(), 4 + 1 + 1 + 2);
}

#[test]
fn toggle_wrap_resets_the_horizontal_offset() {
    let mut state = ScrollLinesState::new(
        vec![String::from("a long unwrapped line")],
        ScrollLinesOptions::new(true, false),
    );
    state.scroll_right();
    state.scroll_right();
    assert_eq!(state.h_offset, 2);
    state.toggle_wrap();
    assert_eq!(state.h_offset, 0);
    assert!(state.options.wrap);
}

#[test]
fn raw_content_joins_lines_with_newlines() {
    let state = ScrollLinesState::new(
        vec![String::from("one"), String::from("two")],
        ScrollLinesOptions::new(false, false),
    );
    assert_eq!(state.raw_content(), "one\ntwo");
}
