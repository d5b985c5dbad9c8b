use gist::config::Config;
use gist::models::Gist;
use gist::viewer::{
    Action, AppState, ClipboardOutcome, ConfirmAction, DbOperation, InputMode, Key,
    OperationResult, Panel, UIResult,
};

fn gist(id: i64, content: &str, tags: &str) -> Gist {
    Gist {
        id,
        content: content.to_string(),
        tags: tags.to_string(),
        created_at: "2024-01-01 00:00:00".to_string(),
    }
}

fn sample() -> Vec<Gist> {
    vec![
        gist(3, "fn main() {}", "Rust"),
        gist(2, "print('hi')", "python"),
        gist(1, "SELECT 1", "sql, db"),
    ]
}

fn numbered(n: i64) -> Vec<Gist> {
    (1..=n).rev().map(|i| gist(i, "text", "tag")).collect()
}

fn state() -> AppState {
    AppState::new(sample(), Config::default())
}

fn press(s: &mut AppState, text: &str) {
    for c in text.chars() {
        assert_eq!(s.handle_key(Key::Char(c), 0), Action::Nothing);
    }
}

fn ids(v: &Vec<Gist>) -> Vec<i64> {
    v.iter().map(|g| g.id).collect()
}

fn search(s: &mut AppState, query: &str) {
    assert_eq!(s.handle_key(Key::Char('/'), 0), Action::Nothing);
    assert_eq!(s.mode(), InputMode::Searching);
    press(s, query);
    assert_eq!(s.handle_key(Key::Enter, 0), Action::Nothing);
    assert_eq!(s.mode(), InputMode::Normal);
}

#[test]
fn a_session_starts_with_everything_listed() {
    let s = state();
    assert_eq!(ids(s.all_gists()), vec![3, 2, 1]);
    assert_eq!(ids(s.filtered_gists()), vec![3, 2, 1]);
    assert_eq!(s.selected(), Some(0));
    assert_eq!(s.mode(), InputMode::Normal);
    assert!(!s.modified());
    assert_eq!(s.focused_panel(), Panel::List);
    assert_eq!(s.get_status(0), None);
    assert_eq!(s.selected_id(), Some(3));
}

#[test]
fn an_empty_session_selects_nothing() {
    let s = AppState::new(Vec::new(), Config::default());
    assert_eq!(s.selected(), None);
    assert!(s.current_gist().is_none());
    assert_eq!(s.selected_id(), None);
}

#[test]
fn the_loaded_count_is_announced() {
    let mut s = state();
    s.announce_loaded(10);
    assert_eq!(s.get_status(10), Some("Loaded 3 gists".to_string()));
}

#[test]
fn search_matches_content_without_regard_to_case() {
    let mut s = state();
    search(&mut s, "SELECT");
    assert_eq!(ids(s.filtered_gists()), vec![1]);
    search(&mut s, "select");
    assert_eq!(ids(s.filtered_gists()), vec![1]);
    search(&mut s, "MAIN");
    assert_eq!(ids(s.filtered_gists()), vec![3]);
}

#[test]
fn search_matches_tags_without_regard_to_case() {
    let mut s = state();
    search(&mut s, "rust");
    assert_eq!(ids(s.filtered_gists()), vec![3]);
    search(&mut s, "PYTHON");
    assert_eq!(ids(s.filtered_gists()), vec![2]);
}

#[test]
fn search_matches_the_decimal_id() {
    let mut s = AppState::new(
        vec![gist(42, "alpha", "x"), gist(7, "beta", "y"), gist(142, "gamma", "z")],
        Config::default(),
    );
    search(&mut s, "42");
    assert_eq!(ids(s.filtered_gists()), vec![42, 142]);
    search(&mut s, "7");
    assert_eq!(ids(s.filtered_gists()), vec![7]);
}

#[test]
fn search_keeps_the_order_of_the_full_list() {
    let mut s = state();
    search(&mut s, "i");
    assert_eq!(ids(s.filtered_gists()), vec![3, 2]);
    assert_eq!(s.selected(), Some(0));
}

#[test]
fn an_empty_query_lists_everything() {
    let mut s = state();
    search(&mut s, "rust");
    assert_eq!(ids(s.filtered_gists()), vec![3]);
    search(&mut s, "");
    assert_eq!(ids(s.filtered_gists()), vec![3, 2, 1]);
}

#[test]
fn a_query_without_match_lists_nothing() {
    let mut s = state();
    search(&mut s, "zzz");
    assert!(s.filtered_gists().is_empty());
    assert_eq!(s.selected(), None);
    assert!(s.current_gist().is_none());
    assert_eq!(s.handle_key(Key::Down, 0), Action::Nothing);
    assert_eq!(s.selected(), None);
    assert_eq!(s.handle_key(Key::Up, 0), Action::Nothing);
    assert_eq!(s.selected(), None);
}

#[test]
fn backspace_removes_the_last_typed_character() {
    let mut s = state();
    s.handle_key(Key::Char('s'), 0);
    press(&mut s, "rusty");
    s.handle_key(Key::Backspace, 0);
    assert_eq!(s.search_query(), "rust");
    s.handle_key(Key::Enter, 0);
    assert_eq!(ids(s.filtered_gists()), vec![3]);
    assert_eq!(s.active_query(), "rust");
}

#[test]
fn backspace_on_an_empty_query_changes_nothing() {
    let mut s = state();
    s.handle_key(Key::Char('s'), 0);
    s.handle_key(Key::Backspace, 0);
    assert_eq!(s.search_query(), "");
    assert_eq!(s.mode(), InputMode::Searching);
}

#[test]
fn stepping_down_from_the_last_row_selects_the_first() {
    let mut s = state();
    s.handle_key(Key::Down, 0);
    assert_eq!(s.selected(), Some(1));
    s.handle_key(Key::Char('j'), 0);
    assert_eq!(s.selected(), Some(2));
    s.handle_key(Key::Down, 0);
    assert_eq!(s.selected(), Some(0));
}

#[test]
fn stepping_up_from_the_first_row_selects_the_last() {
    let mut s = state();
    s.handle_key(Key::Up, 0);
    assert_eq!(s.selected(), Some(2));
    s.handle_key(Key::Char('k'), 0);
    assert_eq!(s.selected(), Some(1));
    s.select_prev();
    assert_eq!(s.selected(), Some(0));
    s.select_next();
    assert_eq!(s.selected(), Some(1));
}

#[test]
fn navigation_in_an_empty_list_is_a_no_op() {
    let mut s = AppState::new(Vec::new(), Config::default());
    for key in [Key::Down, Key::Up, Key::PageDown, Key::PageUp, Key::Home, Key::End] {
        assert_eq!(s.handle_key(key, 0), Action::Nothing);
        assert_eq!(s.selected(), None);
    }
}

#[test]
fn page_keys_move_by_ten_and_stop_at_the_ends() {
    let mut s = AppState::new(numbered(25), Config::default());
    s.handle_key(Key::PageDown, 0);
    assert_eq!(s.selected(), Some(10));
    s.handle_key(Key::PageDown, 0);
    assert_eq!(s.selected(), Some(20));
    s.handle_key(Key::PageDown, 0);
    assert_eq!(s.selected(), Some(24));
    s.handle_key(Key::PageDown, 0);
    assert_eq!(s.selected(), Some(24));
    s.handle_key(Key::PageUp, 0);
    assert_eq!(s.selected(), Some(14));
    s.handle_key(Key::PageUp, 0);
    assert_eq!(s.selected(), Some(4));
    s.handle_key(Key::PageUp, 0);
    assert_eq!(s.selected(), Some(0));
    s.handle_key(Key::PageUp, 0);
    assert_eq!(s.selected(), Some(0));
}

#[test]
fn home_and_end_jump_to_the_ends() {
    let mut s = AppState::new(numbered(25), Config::default());
    s.handle_key(Key::End, 0);
    assert_eq!(s.selected(), Some(24));
    s.handle_key(Key::Home, 0);
    assert_eq!(s.selected(), Some(0));
}

#[test]
fn tab_changes_the_focus_and_not_the_selection() {
    let mut s = state();
    s.handle_key(Key::Down, 0);
    s.handle_key(Key::Tab, 0);
    assert_eq!(s.focused_panel(), Panel::Content);
    assert_eq!(s.selected(), Some(1));
    s.handle_key(Key::Tab, 0);
    assert_eq!(s.focused_panel(), Panel::List);
}

#[test]
fn escape_discards_a_search() {
    let mut s = state();
    let before = ids(s.filtered_gists());
    s.handle_key(Key::Char('s'), 0);
    press(&mut s, "pyth");
    s.handle_key(Key::Backspace, 0);
    press(&mut s, "x?q");
    assert_eq!(s.handle_key(Key::Esc, 0), Action::Nothing);
    assert_eq!(s.mode(), InputMode::Normal);
    assert_eq!(ids(s.filtered_gists()), before);
    assert_eq!(s.search_query(), "");
    assert_eq!(s.edit_buffer(), "");
}

#[test]
fn escape_resets_an_active_filter() {
    let mut s = state();
    search(&mut s, "rust");
    assert_eq!(ids(s.filtered_gists()), vec![3]);
    s.handle_key(Key::Char('/'), 0);
    press(&mut s, "sql");
    s.handle_key(Key::Esc, 0);
    assert_eq!(ids(s.filtered_gists()), vec![3, 2, 1]);
    assert_eq!(s.active_query(), "");
}

#[test]
fn escape_discards_a_tag_edit() {
    let mut s = state();
    s.handle_key(Key::Char('t'), 0);
    assert_eq!(s.mode(), InputMode::TagEditing);
    assert_eq!(s.edit_buffer(), "Rust");
    press(&mut s, ", cli");
    assert_eq!(s.edit_buffer(), "Rust, cli");
    assert_eq!(s.handle_key(Key::Esc, 0), Action::Nothing);
    assert_eq!(s.mode(), InputMode::Normal);
    assert_eq!(s.edit_buffer(), "");
    assert_eq!(ids(s.filtered_gists()), vec![3, 2, 1]);
    assert_eq!(s.all_gists()[0].tags, "Rust");
    assert!(!s.modified());
}

#[test]
fn enter_submits_the_edited_tags() {
    let mut s = state();
    s.handle_key(Key::Down, 0);
    s.handle_key(Key::Char('t'), 0);
    s.handle_key(Key::Backspace, 0);
    press(&mut s, "N3");
    let action = s.handle_key(Key::Enter, 0);
    assert_eq!(
        action,
        Action::Submit(DbOperation::Update(
            2,
            "print('hi')".to_string(),
            "pythoN3".to_string()
        ))
    );
    assert_eq!(s.mode(), InputMode::Normal);
    assert_eq!(s.edit_buffer(), "");
}

#[test]
fn keys_that_need_a_selection_say_so_without_one() {
    for key in ['e', 'd', 't', 'y'] {
        let mut s = AppState::new(Vec::new(), Config::default());
        assert_eq!(s.handle_key(Key::Char(key), 7), Action::Nothing);
        assert_eq!(s.mode(), InputMode::Normal);
        assert_eq!(s.get_status(7), Some("No gist selected".to_string()));
    }
}

#[test]
fn add_starts_the_editor_on_nothing() {
    let mut s = state();
    assert_eq!(s.handle_key(Key::Char('a'), 0), Action::EditNew("nvim".to_string()));
    let mut config = Config::default();
    config.editor = "hx".to_string();
    let mut s = AppState::new(sample(), config);
    assert_eq!(s.handle_key(Key::Char('a'), 0), Action::EditNew("hx".to_string()));
    assert_eq!(s.editor(), "hx");
}

#[test]
fn edit_starts_the_editor_on_the_selected_content() {
    let mut s = state();
    s.handle_key(Key::Down, 0);
    assert_eq!(
        s.handle_key(Key::Char('e'), 0),
        Action::EditExisting {
            editor: "nvim".to_string(),
            id: 2,
            content: "print('hi')".to_string(),
            tags: "python".to_string(),
        }
    );
    assert_eq!(s.mode(), InputMode::Normal);
}

#[test]
fn copy_hands_out_the_selected_content() {
    let mut s = state();
    assert_eq!(s.handle_key(Key::Char('y'), 0), Action::Copy("fn main() {}".to_string()));
    s.clipboard_done(ClipboardOutcome::Copied, 5);
    assert_eq!(s.get_status(5), Some("Copied to clipboard".to_string()));
    s.clipboard_done(ClipboardOutcome::Failed, 6);
    assert_eq!(s.get_status(6), Some("Failed to copy to clipboard".to_string()));
    s.clipboard_done(ClipboardOutcome::Unavailable, 7);
    assert_eq!(s.get_status(7), Some("Clipboard not available".to_string()));
    assert_eq!(s.mode(), InputMode::Normal);
}

#[test]
fn a_status_message_expires_after_five_seconds() {
    let mut s = state();
    s.set_status("hello".to_string(), 1000);
    assert_eq!(s.get_status(1000), Some("hello".to_string()));
    assert_eq!(s.get_status(5999), Some("hello".to_string()));
    assert_eq!(s.get_status(6000), None);
    assert_eq!(s.get_status(999), Some("hello".to_string()));
}

#[test]
fn quit_without_changes_ends_at_once() {
    let mut s = state();
    assert_eq!(s.handle_key(Key::Char('q'), 0), Action::Quit(UIResult::NoChanges));
    assert_eq!(s.mode(), InputMode::Normal);
}

#[test]
fn quit_with_changes_asks_first() {
    let mut s = state();
    let mut mirror = sample();
    s.apply_result(&mut mirror, OperationResult::Delete(2, true), None, 0);
    assert!(s.modified());
    assert_eq!(s.handle_key(Key::Char('q'), 0), Action::Nothing);
    assert_eq!(s.mode(), InputMode::Confirming(ConfirmAction::Quit));
    assert_eq!(s.handle_key(Key::Char('n'), 0), Action::Nothing);
    assert_eq!(s.handle_key(Key::Enter, 0), Action::Nothing);
    assert_eq!(s.mode(), InputMode::Confirming(ConfirmAction::Quit));
    assert_eq!(s.handle_key(Key::Char('y'), 0), Action::Quit(UIResult::Modified));
}

#[test]
fn escape_cancels_a_confirmed_quit() {
    let mut s = state();
    let mut mirror = sample();
    s.apply_result(&mut mirror, OperationResult::Delete(2, true), None, 0);
    s.handle_key(Key::Char('q'), 0);
    assert_eq!(s.handle_key(Key::Esc, 0), Action::Nothing);
    assert_eq!(s.mode(), InputMode::Normal);
    assert!(s.modified());
}

#[test]
fn delete_asks_and_then_submits() {
    let mut s = state();
    s.handle_key(Key::Down, 0);
    assert_eq!(s.handle_key(Key::Char('d'), 0), Action::Nothing);
    assert_eq!(s.mode(), InputMode::Confirming(ConfirmAction::Delete(2)));
    assert_eq!(s.handle_key(Key::Char('y'), 0), Action::Submit(DbOperation::Delete(2)));
    assert_eq!(s.mode(), InputMode::Normal);
    assert_eq!(ids(s.all_gists()), vec![3, 2, 1]);
    assert!(!s.modified());
}

#[test]
fn escape_cancels_a_deletion() {
    let mut s = state();
    s.handle_key(Key::Char('d'), 0);
    assert_eq!(s.handle_key(Key::Esc, 0), Action::Nothing);
    assert_eq!(s.mode(), InputMode::Normal);
    assert_eq!(ids(s.all_gists()), vec![3, 2, 1]);
}

#[test]
fn an_added_snippet_joins_both_lists() {
    let mut s = state();
    let mut mirror = sample();
    let action = gist::channel::after_new_edit(Some("hello world".to_string()));
    assert_eq!(
        action,
        Action::Submit(DbOperation::Add("hello world".to_string(), String::new()))
    );
    let result = gist::channel::add_result(Some(Ok(4)));
    assert_eq!(result.fetch_id(), Some(4));
    s.apply_result(&mut mirror, result, Some(gist(4, "hello world", "")), 100);
    let added = s.all_gists().last().unwrap();
    assert_eq!(added.content, "hello world");
    assert_eq!(added.tags, "");
    assert!(s.all_gists()[..3].iter().all(|g| g.id < added.id));
    assert_eq!(ids(s.all_gists()), vec![3, 2, 1, 4]);
    assert_eq!(ids(s.filtered_gists()), vec![3, 2, 1, 4]);
    assert_eq!(ids(&mirror), vec![3, 2, 1, 4]);
    assert!(s.modified());
    assert_eq!(s.selected(), Some(0));
    assert_eq!(s.get_status(100), Some("Added gist #4".to_string()));
}

#[test]
fn an_added_snippet_lifts_the_filter() {
    let mut s = state();
    let mut mirror = sample();
    search(&mut s, "rust");
    s.apply_result(&mut mirror, OperationResult::Add(4), Some(gist(4, "hello", "")), 0);
    assert_eq!(ids(s.filtered_gists()), vec![3, 2, 1, 4]);
    assert_eq!(s.active_query(), "");
    assert_eq!(s.search_query(), "");
}

#[test]
fn an_add_that_cannot_be_read_back_still_counts() {
    let mut s = state();
    let mut mirror = sample();
    s.apply_result(&mut mirror, OperationResult::Add(4), None, 0);
    assert_eq!(ids(s.all_gists()), vec![3, 2, 1]);
    assert_eq!(ids(s.filtered_gists()), vec![3, 2, 1]);
    assert_eq!(ids(&mirror), vec![3, 2, 1]);
    assert!(s.modified());
    assert_eq!(
        s.get_status(0),
        Some("Added gist #4, but it could not be read back".to_string())
    );
    assert_eq!(s.mode(), InputMode::Normal);
}

#[test]
fn an_update_that_cannot_be_read_back_still_counts() {
    let mut s = state();
    let mut mirror = sample();
    search(&mut s, "python");
    s.apply_result(&mut mirror, OperationResult::Update(2), None, 0);
    assert_eq!(ids(s.all_gists()), vec![3, 2, 1]);
    assert_eq!(ids(s.filtered_gists()), vec![2]);
    assert_eq!(s.all_gists()[1].content, "print('hi')");
    assert_eq!(ids(&mirror), vec![3, 2, 1]);
    assert!(s.modified());
    assert_eq!(
        s.get_status(0),
        Some("Updated gist #2, but it could not be read back".to_string())
    );
    assert_eq!(s.handle_key(Key::Char('q'), 0), Action::Nothing);
    assert_eq!(s.mode(), InputMode::Confirming(ConfirmAction::Quit));
}

#[test]
fn a_deleted_snippet_leaves_every_list() {
    let mut s = state();
    let mut mirror = sample();
    s.handle_key(Key::End, 0);
    assert_eq!(s.selected(), Some(2));
    s.apply_result(&mut mirror, OperationResult::Delete(1, true), None, 50);
    assert_eq!(ids(s.all_gists()), vec![3, 2]);
    assert_eq!(ids(s.filtered_gists()), vec![3, 2]);
    assert_eq!(ids(&mirror), vec![3, 2]);
    assert_eq!(s.selected(), Some(1));
    assert!(s.modified());
    assert_eq!(s.get_status(50), Some("Deleted gist #1".to_string()));
}

#[test]
fn deleting_the_last_snippet_selects_nothing() {
    let mut s = AppState::new(vec![gist(9, "only", "")], Config::default());
    let mut mirror = vec![gist(9, "only", "")];
    s.apply_result(&mut mirror, OperationResult::Delete(9, true), None, 0);
    assert!(s.all_gists().is_empty());
    assert!(s.filtered_gists().is_empty());
    assert!(mirror.is_empty());
    assert_eq!(s.selected(), None);
}

#[test]
fn deleting_under_a_filter_keeps_the_filter() {
    let mut s = state();
    let mut mirror = sample();
    search(&mut s, "i");
    assert_eq!(ids(s.filtered_gists()), vec![3, 2]);
    s.handle_key(Key::Down, 0);
    s.apply_result(&mut mirror, OperationResult::Delete(2, true), None, 0);
    assert_eq!(ids(s.filtered_gists()), vec![3]);
    assert_eq!(ids(s.all_gists()), vec![3, 1]);
    assert_eq!(s.selected(), Some(0));
}

#[test]
fn deleting_an_absent_id_only_leaves_a_message() {
    let mut s = state();
    let mut mirror = sample();
    s.handle_key(Key::Down, 0);
    s.apply_result(&mut mirror, gist::channel::delete_result(77, Some(Ok(false))), None, 9);
    assert_eq!(ids(s.all_gists()), vec![3, 2, 1]);
    assert_eq!(ids(s.filtered_gists()), vec![3, 2, 1]);
    assert_eq!(ids(&mirror), vec![3, 2, 1]);
    assert_eq!(s.selected(), Some(1));
    assert!(!s.modified());
    assert_eq!(s.get_status(9), Some("Failed to delete gist #77".to_string()));
}

#[test]
fn an_updated_snippet_takes_the_place_of_its_earlier_form() {
    let mut s = state();
    let mut mirror = sample();
    s.apply_result(&mut mirror, OperationResult::Update(2), Some(gist(2, "puts 'hi'", "ruby")), 3);
    assert_eq!(ids(s.all_gists()), vec![3, 2, 1]);
    assert_eq!(s.all_gists()[1].content, "puts 'hi'");
    assert_eq!(s.filtered_gists()[1].tags, "ruby");
    assert_eq!(mirror[1].content, "puts 'hi'");
    assert!(s.modified());
    assert_eq!(s.get_status(3), Some("Updated gist #2".to_string()));
}

#[test]
fn an_update_is_held_against_the_active_query() {
    let mut s = state();
    let mut mirror = sample();
    search(&mut s, "python");
    assert_eq!(ids(s.filtered_gists()), vec![2]);
    s.apply_result(&mut mirror, OperationResult::Update(2), Some(gist(2, "puts 'hi'", "ruby")), 0);
    assert!(s.filtered_gists().is_empty());
    assert_eq!(s.selected(), None);
    assert_eq!(s.all_gists()[1].tags, "ruby");
}

#[test]
fn a_failure_of_the_store_only_leaves_a_message() {
    let mut s = state();
    let mut mirror = sample();
    s.apply_result(&mut mirror, OperationResult::Error("disk full".to_string()), None, 1);
    assert_eq!(s.get_status(1), Some("Error: disk full".to_string()));
    assert_eq!(ids(s.all_gists()), vec![3, 2, 1]);
    assert!(!s.modified());
    assert_eq!(s.mode(), InputMode::Normal);
}

#[test]
fn negative_ids_are_written_with_a_sign() {
    let mut s = state();
    let mut mirror = sample();
    s.apply_result(&mut mirror, OperationResult::Delete(-5, false), None, 0);
    assert_eq!(s.get_status(0), Some("Failed to delete gist #-5".to_string()));
    s.apply_result(&mut mirror, OperationResult::Delete(i64::MIN, false), None, 0);
    assert_eq!(
        s.get_status(0),
        Some("Failed to delete gist #-9223372036854775808".to_string())
    );
}

#[test]
fn reload_asks_for_the_list_and_takes_it() {
    let mut s = state();
    let mut mirror = sample();
    search(&mut s, "rust");
    assert_eq!(s.handle_key(Key::Char('r'), 0), Action::Reload);
    s.reload_done(&mut mirror, Ok(vec![gist(8, "new", ""), gist(3, "fn main() {}", "Rust")]), 4);
    assert_eq!(ids(s.all_gists()), vec![8, 3]);
    assert_eq!(ids(s.filtered_gists()), vec![8, 3]);
    assert_eq!(ids(&mirror), vec![8, 3]);
    assert_eq!(s.selected(), Some(0));
    assert_eq!(s.get_status(4), Some("Reloaded 2 gists".to_string()));
    assert!(!s.modified());
}

#[test]
fn a_failed_reload_keeps_the_list() {
    let mut s = state();
    let mut mirror = sample();
    s.reload_done(&mut mirror, Err("locked".to_string()), 4);
    assert_eq!(ids(s.all_gists()), vec![3, 2, 1]);
    assert_eq!(ids(&mirror), vec![3, 2, 1]);
    assert_eq!(s.get_status(4), Some("Error: locked".to_string()));
}

#[test]
fn help_scrolls_and_stops_at_the_top() {
    let mut s = state();
    s.handle_key(Key::Char('?'), 0);
    assert_eq!(s.mode(), InputMode::Help);
    assert_eq!(s.help_scroll(), 0);
    s.handle_key(Key::Up, 0);
    assert_eq!(s.help_scroll(), 0);
    s.handle_key(Key::Down, 0);
    s.handle_key(Key::Down, 0);
    assert_eq!(s.help_scroll(), 2);
    s.handle_key(Key::PageDown, 0);
    assert_eq!(s.help_scroll(), 12);
    s.handle_key(Key::PageUp, 0);
    assert_eq!(s.help_scroll(), 2);
    s.handle_key(Key::PageUp, 0);
    assert_eq!(s.help_scroll(), 0);
    s.handle_key(Key::Char('q'), 0);
    assert_eq!(s.mode(), InputMode::Help);
    s.handle_key(Key::Char('?'), 0);
    assert_eq!(s.mode(), InputMode::Normal);
    s.handle_key(Key::Char('?'), 0);
    s.handle_key(Key::Esc, 0);
    assert_eq!(s.mode(), InputMode::Normal);
}

#[test]
fn help_starts_at_the_top_each_time() {
    let mut s = state();
    s.handle_key(Key::Char('?'), 0);
    s.handle_key(Key::PageDown, 0);
    s.handle_key(Key::Esc, 0);
    s.handle_key(Key::Char('?'), 0);
    assert_eq!(s.help_scroll(), 0);
}

#[test]
fn unknown_keys_do_nothing() {
    let mut s = state();
    assert_eq!(s.handle_key(Key::Other, 0), Action::Nothing);
    assert_eq!(s.handle_key(Key::Char('z'), 0), Action::Nothing);
    assert_eq!(s.handle_key(Key::Enter, 0), Action::Nothing);
    assert_eq!(s.mode(), InputMode::Normal);
    assert_eq!(s.selected(), Some(0));
}

#[test]
fn reset_filter_and_do_search_work_on_their_own() {
    let mut s = state();
    s.handle_key(Key::Char('s'), 0);
    press(&mut s, "sql");
    s.do_search();
    assert_eq!(ids(s.filtered_gists()), vec![1]);
    s.reset_filter();
    assert_eq!(ids(s.filtered_gists()), vec![3, 2, 1]);
    s.reload(vec![gist(5, "x", "")]);
    assert_eq!(ids(s.all_gists()), vec![5]);
    s.toggle_panel();
    assert_eq!(s.focused_panel(), Panel::Content);
    s.page_down();
    assert_eq!(s.selected(), Some(0));
    s.page_up();
    assert_eq!(s.selected(), Some(0));
    assert_eq!(s.verdict(), UIResult::NoChanges);
    assert_eq!(s.config().editor, "");
}
