use chameleon::launcher::selection::{
    filter_change, grid_move_selection, keypress_action, list_move_selection, next_provider,
    page_for_count, reset_target, select_below, Direction, Key, KeyAction, Strictness,
};

#[test]
fn keys_map_to_actions() {
    assert_eq!(keypress_action(Key::Up), KeyAction::MoveSelection(Direction::Up));
    assert_eq!(keypress_action(Key::Right), KeyAction::MoveSelection(Direction::Right));
    assert_eq!(keypress_action(Key::Down), KeyAction::MoveSelection(Direction::Down));
    assert_eq!(keypress_action(Key::Left), KeyAction::MoveSelection(Direction::Left));
    assert_eq!(keypress_action(Key::Tab), KeyAction::NextProvider);
    assert_eq!(keypress_action(Key::Return), KeyAction::InvokeAction);
    assert_eq!(keypress_action(Key::Escape), KeyAction::ToggleVisibility);
    assert_eq!(keypress_action(Key::Other), KeyAction::Proceed);
}

#[test]
fn only_arrows_are_directions() {
    assert_eq!(Direction::try_from(Key::Left), Ok(Direction::Left));
    assert_eq!(Direction::try_from(Key::Tab), Err(()));
    assert_eq!(Direction::try_from(Key::Other), Err(()));
}

#[test]
fn list_moves_stop_at_the_ends() {
    assert_eq!(list_move_selection(0, 3, Direction::Up), 0);
    assert_eq!(list_move_selection(0, 3, Direction::Down), 1);
    assert_eq!(list_move_selection(2, 3, Direction::Down), 2);
    assert_eq!(list_move_selection(2, 3, Direction::Up), 1);
    assert_eq!(list_move_selection(1, 3, Direction::Left), 1);
    assert_eq!(list_move_selection(1, 3, Direction::Right), 1);
}

#[test]
fn list_up_undoes_down() {
    let below = list_move_selection(4, 10, Direction::Down);
    assert_eq!(below, 5);
    assert_eq!(list_move_selection(below, 10, Direction::Up), 4);
}

#[test]
fn grid_moves_by_rows_of_five() {
    assert_eq!(grid_move_selection(2, 12, Direction::Down), 7);
    assert_eq!(grid_move_selection(7, 12, Direction::Down), 7);
    assert_eq!(grid_move_selection(7, 12, Direction::Up), 2);
    assert_eq!(grid_move_selection(3, 12, Direction::Up), 3);
    assert_eq!(grid_move_selection(11, 12, Direction::Right), 11);
    assert_eq!(grid_move_selection(10, 12, Direction::Right), 11);
    assert_eq!(grid_move_selection(0, 12, Direction::Left), 0);
    assert_eq!(grid_move_selection(5, 12, Direction::Left), 4);
}

#[test]
fn grid_moves_undo() {
    let down = grid_move_selection(1, 20, Direction::Down);
    assert_eq!(grid_move_selection(down, 20, Direction::Up), 1);
    let right = grid_move_selection(8, 20, Direction::Right);
    assert_eq!(grid_move_selection(right, 20, Direction::Left), 8);
}

#[test]
fn selection_below_and_reset() {
    assert_eq!(select_below(0, 2), Some(1));
    assert_eq!(select_below(1, 2), None);
    assert_eq!(reset_target(0), None);
    assert_eq!(reset_target(4), Some(0));
}

#[test]
fn tab_cycles_through_providers() {
    assert_eq!(next_provider(0, 2), 1);
    assert_eq!(next_provider(1, 2), 0);
    let mut active = 1;
    for _ in 0..3 {
        active = next_provider(active, 3);
    }
    assert_eq!(active, 1);
}

#[test]
fn shorter_query_relaxes_the_filter() {
    assert_eq!(filter_change("fi", "fir"), Strictness::LessStrict);
    assert_eq!(filter_change("", "fir"), Strictness::LessStrict);
    assert_eq!(filter_change("fire", "fir"), Strictness::MoreStrict);
    assert_eq!(filter_change("fir", "fir"), Strictness::MoreStrict);
}

#[test]
fn a_changed_query_of_the_same_length_checks_every_item_again() {
    assert_eq!(filter_change("xy", "ab"), Strictness::Different);
    assert_eq!(filter_change("fox", "fir"), Strictness::Different);
    assert_eq!(filter_change("a", "bc"), Strictness::Different);
}

#[test]
fn empty_results_show_the_not_found_page() {
    assert_eq!(page_for_count(0), "notfound");
    assert_eq!(page_for_count(7), "default");
}

use chameleon::launcher::window::{counter_label, toggle_visibility, ToggleAction};

#[test]
fn toggling_shows_then_hides_and_resets() {
    assert_eq!(toggle_visibility(false), (true, ToggleAction::Present));
    assert_eq!(toggle_visibility(true), (false, ToggleAction::HideAndReset));
    let (shown, _) = toggle_visibility(false);
    let (hidden, _) = toggle_visibility(shown);
    assert!(!hidden);
}

#[test]
fn counter_shows_the_count_when_there_are_items() {
    assert_eq!(counter_label(0), ("0".to_string(), false));
    assert_eq!(counter_label(7), ("7".to_string(), true));
    assert_eq!(counter_label(1024), ("1024".to_string(), true));
}

use chameleon::launcher::window::{capitalize_unicode, root_key_action, RootKeyAction};

#[test]
fn page_titles_are_capitalized() {
    assert_eq!(capitalize_unicode("applications"), "Applications");
    assert_eq!(capitalize_unicode("wALLPAPERS"), "Wallpapers");
    assert_eq!(capitalize_unicode(""), "");
    assert_eq!(capitalize_unicode("ßa"), "SSa");
    assert_eq!(capitalize_unicode("éCRAN"), "Écran");
}

#[test]
fn window_keys() {
    assert_eq!(root_key_action(Key::Left), RootKeyAction::Swallow);
    assert_eq!(root_key_action(Key::Tab), RootKeyAction::Swallow);
    assert_eq!(root_key_action(Key::Down), RootKeyAction::SelectBelow);
    assert_eq!(root_key_action(Key::Return), RootKeyAction::InvokeAction);
    assert_eq!(root_key_action(Key::Escape), RootKeyAction::ToggleVisibility);
    assert_eq!(root_key_action(Key::Up), RootKeyAction::Proceed);
    assert_eq!(root_key_action(Key::Right), RootKeyAction::Proceed);
    assert_eq!(root_key_action(Key::Other), RootKeyAction::Proceed);
}
