use vitaforge::input::{AppCommand, InputCommand};
use vitaforge::i18n::Language;
use vitaforge::navigation::{
    at_left_edge, confirm_settings_row, grid_delta, move_selection, move_settings_row, move_sidebar_cursor, Selection,
};

#[test]
fn the_grid_selection_stops_at_the_ends() {
    let hidden = Selection { selected: 3, active: false };
    assert_eq!(move_selection(hidden, 10, 5), (Selection { selected: 0, active: true }, true));
    let s = Selection { selected: 2, active: true };
    assert_eq!(move_selection(s, 10, 6), (Selection { selected: 8, active: true }, true));
    assert_eq!(move_selection(s, 10, 60), (Selection { selected: 9, active: true }, true));
    assert_eq!(move_selection(s, 10, -6), (Selection { selected: 0, active: true }, true));
    assert_eq!(move_selection(Selection { selected: 0, active: true }, 10, -1), (Selection { selected: 0, active: true }, false));
    assert_eq!(move_selection(s, 0, 1), (s, false));
    assert_eq!(move_selection(s, 10, isize::MIN), (Selection { selected: 0, active: true }, true));
}

#[test]
fn directions_step_by_tiles_and_rows() {
    assert_eq!(grid_delta(InputCommand::MoveUp, 6), -6);
    assert_eq!(grid_delta(InputCommand::MoveRight, 6), 1);
    assert_eq!(grid_delta(InputCommand::Confirm, 6), 0);
    assert!(at_left_edge(Selection { selected: 12, active: true }, 6));
    assert!(!at_left_edge(Selection { selected: 13, active: true }, 6));
    assert!(at_left_edge(Selection { selected: 13, active: false }, 6));
}

#[test]
fn the_sidebar_cursor_takes_the_focus_once() {
    assert_eq!(move_sidebar_cursor(0, false, 7, -1), (0, true));
    assert_eq!(move_sidebar_cursor(0, true, 7, -1), (0, false));
    assert_eq!(move_sidebar_cursor(5, true, 7, 1), (6, true));
    assert_eq!(move_sidebar_cursor(6, true, 7, 1), (6, false));
    assert_eq!(move_sidebar_cursor(2, false, 0, 1), (2, false));
}

#[test]
fn the_settings_list_moves_and_confirms() {
    assert_eq!(move_settings_row(0, InputCommand::MoveUp), 0);
    assert_eq!(move_settings_row(8, InputCommand::MoveDown), 8);
    assert_eq!(move_settings_row(3, InputCommand::MoveDown), 4);
    assert_eq!(confirm_settings_row(1), Some(AppCommand::SetLanguage(Language::Spanish)));
    assert_eq!(confirm_settings_row(3), None);
    assert_eq!(confirm_settings_row(7), Some(AppCommand::PurgeAllCache));
    assert_eq!(confirm_settings_row(9), None);
}
