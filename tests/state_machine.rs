use file_explorer_tui::cursor::CursorMemory;
use file_explorer_tui::input_action::{
    delete_currently_selected_file, delete_selected_files, handle_create_file, handle_rename_file,
    open_finished, InputAction,
};
use file_explorer_tui::keys::handle_key_event;
use file_explorer_tui::navigation::{
    enter_directory, navigate_to_parent_directory, refresh_files_for_working_directory,
};
use file_explorer_tui::state::{AppState, Effect, Key, Notice};
use file_explorer_tui::watch::{events_need_refresh, watch_rebound, WatchBinding, WatchCommand, WatchEvent};
use file_explorer_tui::widget::Window;

fn raw(entries: &[(&str, bool)]) -> Vec<(String, bool)> {
    entries.iter().map(|(p, d)| (p.to_string(), *d)).collect()
}

fn names(state: &AppState) -> Vec<String> {
    state.files.iter().map(|f| f.display_name.clone()).collect()
}

fn selected_names(state: &AppState) -> Vec<String> {
    state.selected_files.iter().map(|f| f.display_name.clone()).collect()
}

fn home_raw() -> Vec<(String, bool)> {
    raw(&[("/home/u/a.txt", false), ("/home/u/.hidden", false), ("/home/u/sub", true)])
}

fn home() -> AppState {
    AppState::new("/home/u".to_string(), &home_raw())
}

fn press(state: &mut AppState, c: char) -> Effect {
    handle_key_event(state, Key::Char(c))
}

fn type_text(state: &mut AppState, text: &str) {
    for c in text.chars() {
        assert!(matches!(press(state, c), Effect::Nothing));
    }
}

#[test]
fn start_up_state() {
    let state = home();
    assert_eq!(names(&state), vec!["sub/", "a.txt"]);
    assert_eq!(state.file_cursor, Some(0));
    assert_eq!(state.input_action, InputAction::NoAction);
    assert_eq!(state.current_window, Window::Files);
    assert_eq!(state.list_state_index_of_directory.get(&"/home/u".to_string()), Some(0));
    assert!(state.show_selected_files_window);
    assert!(!state.show_hidden_files);
    let empty = AppState::new("/empty".to_string(), &vec![]);
    assert_eq!(empty.file_cursor, None);
}

#[test]
fn toggling_hidden_files_relists_with_dot_names_last() {
    let mut state = home();
    assert!(matches!(press(&mut state, 'H'), Effect::Relist));
    assert!(state.show_hidden_files);
    assert!(matches!(state.message, Notice::HiddenFilesShown(true)));
    refresh_files_for_working_directory(&mut state, Ok(home_raw()));
    assert_eq!(names(&state), vec!["sub/", "a.txt", ".hidden"]);
    assert!(matches!(press(&mut state, 'H'), Effect::Relist));
    refresh_files_for_working_directory(&mut state, Ok(home_raw()));
    assert_eq!(names(&state), vec!["sub/", "a.txt"]);
}

#[test]
fn selection_is_most_recent_first() {
    let mut state = home();
    press(&mut state, 'j');
    press(&mut state, ' ');
    press(&mut state, 'k');
    press(&mut state, ' ');
    assert_eq!(selected_names(&state), vec!["sub/", "a.txt"]);
    press(&mut state, 'j');
    press(&mut state, ' ');
    assert_eq!(selected_names(&state), vec!["sub/"]);
}

#[test]
fn returning_to_parent_restores_cursor() {
    let mut state = home();
    assert_eq!(state.file_cursor, Some(0));
    let effect = handle_key_event(&mut state, Key::Enter);
    match effect {
        Effect::EnterDirectory(path) => assert_eq!(path, "/home/u/sub"),
        other => panic!("unexpected {:?}", other),
    }
    enter_directory(&mut state, Ok(raw(&[("/home/u/sub/x", false), ("/home/u/sub/y", false)])));
    assert_eq!(state.working_directory, "/home/u/sub");
    assert_eq!(names(&state), vec!["x", "y"]);
    press(&mut state, 'j');
    assert_eq!(state.file_cursor, Some(1));
    match press(&mut state, 'h') {
        Effect::ListParent(path) => assert_eq!(path, "/home/u"),
        other => panic!("unexpected {:?}", other),
    }
    navigate_to_parent_directory(&mut state, Ok(home_raw()));
    assert_eq!(state.working_directory, "/home/u");
    assert_eq!(state.file_cursor, Some(0));
}

#[test]
fn re_entering_restores_the_recorded_index() {
    let root = raw(&[("/r/a", true), ("/r/b", true), ("/r/c", true)]);
    let mut state = AppState::new("/r".to_string(), &root);
    press(&mut state, 'j');
    press(&mut state, 'j');
    assert_eq!(state.file_cursor, Some(2));
    assert!(matches!(press(&mut state, 'l'), Effect::EnterDirectory(_)));
    enter_directory(&mut state, Ok(raw(&[("/r/c/1", false), ("/r/c/2", false), ("/r/c/3", false)])));
    assert_eq!(state.file_cursor, Some(0));
    press(&mut state, 'j');
    press(&mut state, 'j');
    assert!(matches!(press(&mut state, '-'), Effect::ListParent(_)));
    navigate_to_parent_directory(&mut state, Ok(root.clone()));
    assert_eq!(state.file_cursor, Some(2));
    press(&mut state, 'l');
    enter_directory(&mut state, Ok(raw(&[("/r/c/1", false), ("/r/c/2", false), ("/r/c/3", false)])));
    assert_eq!(state.file_cursor, Some(2));
    navigate_to_parent_directory(&mut state, Ok(root.clone()));
    press(&mut state, 'l');
    enter_directory(&mut state, Ok(raw(&[("/r/c/1", false)])));
    assert_eq!(state.file_cursor, Some(0));
}

#[test]
fn entering_an_empty_directory_leaves_the_cursor_unset() {
    let mut state = home();
    press(&mut state, 'l');
    enter_directory(&mut state, Ok(vec![]));
    assert_eq!(state.file_cursor, None);
    assert!(matches!(press(&mut state, ' '), Effect::Nothing));
    assert!(state.selected_files.is_empty());
    press(&mut state, 'r');
    assert_eq!(state.input_action, InputAction::NoAction);
    press(&mut state, 'D');
    assert_eq!(state.input_action, InputAction::NoAction);
    assert!(matches!(press(&mut state, 'o'), Effect::Nothing));
    assert!(matches!(handle_key_event(&mut state, Key::Enter), Effect::Nothing));
}

#[test]
fn entering_a_file_does_nothing() {
    let mut state = home();
    press(&mut state, 'j');
    assert!(matches!(press(&mut state, 'l'), Effect::Nothing));
    enter_directory(&mut state, Ok(vec![]));
    assert_eq!(state.working_directory, "/home/u");
    assert_eq!(state.file_cursor, Some(1));
}

#[test]
fn failing_to_enter_keeps_the_listing() {
    let mut state = home();
    press(&mut state, 'l');
    enter_directory(&mut state, Err("permission denied".to_string()));
    assert_eq!(state.working_directory, "/home/u");
    assert_eq!(names(&state), vec!["sub/", "a.txt"]);
    assert!(matches!(&state.message, Notice::EnterFailed(e) if e == "permission denied"));
    navigate_to_parent_directory(&mut state, Err("gone".to_string()));
    assert_eq!(state.working_directory, "/home/u");
    assert!(matches!(&state.message, Notice::ListingFailed(e) if e == "gone"));
    refresh_files_for_working_directory(&mut state, Err("vanished".to_string()));
    assert_eq!(names(&state), vec!["sub/", "a.txt"]);
    assert!(matches!(&state.message, Notice::ListingFailed(e) if e == "vanished"));
}

#[test]
fn root_is_its_own_parent() {
    let mut state = AppState::new("/".to_string(), &raw(&[("/etc", true)]));
    match press(&mut state, 'h') {
        Effect::ListParent(path) => assert_eq!(path, "/"),
        other => panic!("unexpected {:?}", other),
    }
    navigate_to_parent_directory(&mut state, Ok(raw(&[("/etc", true)])));
    assert_eq!(state.working_directory, "/");
}

#[test]
fn keys_feed_the_text_field_while_an_action_waits() {
    let mut state = home();
    press(&mut state, 'a');
    assert_eq!(state.input_action, InputAction::CreateFile);
    assert!(matches!(state.message, Notice::CreatePrompt));
    let cursor = state.file_cursor;
    type_text(&mut state, "jkhlq");
    assert_eq!(state.user_input, "jkhlq");
    assert_eq!(state.file_cursor, cursor);
    assert_eq!(state.working_directory, "/home/u");
    handle_key_event(&mut state, Key::Backspace);
    assert_eq!(state.user_input, "jkhl");
    assert!(matches!(handle_key_event(&mut state, Key::Other), Effect::Nothing));
    assert_eq!(state.user_input, "jkhl");
    handle_key_event(&mut state, Key::Esc);
    assert_eq!(state.input_action, InputAction::NoAction);
    assert_eq!(state.user_input, "");
    assert!(matches!(state.message, Notice::Empty));
}

#[test]
fn backspace_on_empty_text_and_outside_input_mode() {
    let mut state = home();
    handle_key_event(&mut state, Key::Backspace);
    assert_eq!(state.user_input, "");
    press(&mut state, 'a');
    handle_key_event(&mut state, Key::Backspace);
    assert_eq!(state.user_input, "");
    assert_eq!(state.input_action, InputAction::CreateFile);
}

#[test]
fn quit_only_outside_input_mode() {
    let mut state = home();
    press(&mut state, 'a');
    assert!(matches!(press(&mut state, 'q'), Effect::Nothing));
    handle_key_event(&mut state, Key::Esc);
    assert!(matches!(press(&mut state, 'q'), Effect::Quit));
}

#[test]
fn declining_a_deletion_changes_nothing() {
    let mut state = home();
    press(&mut state, 'D');
    assert_eq!(state.input_action, InputAction::DeleteFile);
    assert!(matches!(&state.message, Notice::DeletePrompt(p) if p == "/home/u/sub"));
    type_text(&mut state, "n");
    assert!(matches!(handle_key_event(&mut state, Key::Enter), Effect::Nothing));
    assert_eq!(state.input_action, InputAction::NoAction);
    assert_eq!(names(&state), vec!["sub/", "a.txt"]);
    assert_eq!(state.user_input, "");
}

#[test]
fn confirmation_is_case_sensitive() {
    let mut state = home();
    press(&mut state, 'D');
    type_text(&mut state, "Y");
    assert!(matches!(handle_key_event(&mut state, Key::Enter), Effect::Nothing));
    press(&mut state, 'D');
    type_text(&mut state, "yes");
    assert!(matches!(handle_key_event(&mut state, Key::Enter), Effect::DeleteEntry(_)));
}

#[test]
fn deleting_a_selected_entry_removes_it_from_the_selection() {
    let mut state = home();
    press(&mut state, 'j');
    press(&mut state, ' ');
    assert_eq!(selected_names(&state), vec!["a.txt"]);
    press(&mut state, 'D');
    type_text(&mut state, "y");
    match handle_key_event(&mut state, Key::Enter) {
        Effect::DeleteEntry(f) => assert_eq!(f.full_path, "/home/u/a.txt"),
        other => panic!("unexpected {:?}", other),
    }
    assert!(matches!(delete_currently_selected_file(&mut state, Ok(())), Effect::Relist));
    assert!(state.selected_files.is_empty());
    assert_eq!(state.input_action, InputAction::NoAction);
    refresh_files_for_working_directory(&mut state, Ok(raw(&[("/home/u/sub", true)])));
    assert_eq!(names(&state), vec!["sub/"]);
    assert_eq!(state.file_cursor, Some(0));
}

#[test]
fn failed_deletion_is_reported() {
    let mut state = home();
    press(&mut state, ' ');
    press(&mut state, 'D');
    type_text(&mut state, "y");
    handle_key_event(&mut state, Key::Enter);
    assert!(matches!(delete_currently_selected_file(&mut state, Err("busy".to_string())), Effect::Relist));
    assert!(matches!(&state.message, Notice::DeleteFailed { path, error } if path == "/home/u/sub" && error == "busy"));
    assert_eq!(selected_names(&state), vec!["sub/"]);
    assert_eq!(state.input_action, InputAction::NoAction);
}

#[test]
fn deleting_the_selection_counts_failures() {
    let mut state = home();
    press(&mut state, ' ');
    press(&mut state, 'j');
    press(&mut state, ' ');
    press(&mut state, '2');
    assert_eq!(state.current_window, Window::SelectedFiles);
    assert_eq!(state.selected_files_cursor, Some(0));
    press(&mut state, 'D');
    assert!(matches!(state.message, Notice::DeleteAllPrompt));
    type_text(&mut state, "yes");
    match handle_key_event(&mut state, Key::Enter) {
        Effect::DeleteEntries(files) => assert_eq!(files.len(), 2),
        other => panic!("unexpected {:?}", other),
    }
    assert!(matches!(delete_selected_files(&mut state, &vec![true, false]), Effect::Relist));
    assert_eq!(selected_names(&state), vec!["sub/"]);
    assert!(matches!(state.message, Notice::DeleteFailures(1)));
    assert_eq!(state.input_action, InputAction::NoAction);
    press(&mut state, 'D');
    type_text(&mut state, "y");
    handle_key_event(&mut state, Key::Enter);
    delete_selected_files(&mut state, &vec![true]);
    assert!(state.selected_files.is_empty());
    assert_eq!(state.selected_files_cursor, None);
    assert!(matches!(state.message, Notice::Empty));
}

#[test]
fn space_in_selected_pane_removes_the_entry() {
    let mut state = home();
    press(&mut state, ' ');
    press(&mut state, 'j');
    press(&mut state, ' ');
    press(&mut state, '2');
    press(&mut state, 'j');
    assert_eq!(state.selected_files_cursor, Some(1));
    press(&mut state, ' ');
    assert_eq!(selected_names(&state), vec!["a.txt"]);
    assert_eq!(state.selected_files_cursor, Some(0));
    press(&mut state, '1');
    assert_eq!(state.current_window, Window::Files);
}

#[test]
fn creating_an_entry() {
    let mut state = home();
    press(&mut state, 'a');
    type_text(&mut state, "new/");
    match handle_key_event(&mut state, Key::Enter) {
        Effect::CreateEntry { path, is_dir } => {
            assert_eq!(path, "/home/u/new/");
            assert!(is_dir);
            assert!(matches!(handle_create_file(&mut state, path, is_dir, Ok(())), Effect::Relist));
        }
        other => panic!("unexpected {:?}", other),
    }
    assert!(matches!(&state.message, Notice::Created { path, is_dir: true } if path == "/home/u/new/"));
    assert_eq!(state.input_action, InputAction::NoAction);
    assert_eq!(state.user_input, "");
    press(&mut state, 'a');
    type_text(&mut state, "f.txt");
    match handle_key_event(&mut state, Key::Enter) {
        Effect::CreateEntry { path, is_dir } => {
            assert_eq!(path, "/home/u/f.txt");
            assert!(!is_dir);
            handle_create_file(&mut state, path, is_dir, Err("exists".to_string()));
        }
        other => panic!("unexpected {:?}", other),
    }
    assert!(matches!(&state.message, Notice::CreateFailed(e) if e == "exists"));
}

#[test]
fn renaming_starts_from_the_full_path() {
    let mut state = home();
    press(&mut state, 'r');
    assert_eq!(state.input_action, InputAction::RenameFile);
    assert_eq!(state.user_input, "/home/u/sub");
    for _ in 0..3 {
        handle_key_event(&mut state, Key::Backspace);
    }
    type_text(&mut state, "dir");
    match handle_key_event(&mut state, Key::Enter) {
        Effect::Rename { from, to } => {
            assert_eq!(from, "/home/u/sub");
            assert_eq!(to, "/home/u/dir");
        }
        other => panic!("unexpected {:?}", other),
    }
    assert!(matches!(handle_rename_file(&mut state, Ok(())), Effect::Relist));
    assert!(matches!(state.message, Notice::Renamed));
    assert_eq!(state.input_action, InputAction::NoAction);
    press(&mut state, 'r');
    handle_key_event(&mut state, Key::Enter);
    handle_rename_file(&mut state, Err("denied".to_string()));
    assert!(matches!(&state.message, Notice::RenameFailed(e) if e == "denied"));
}

#[test]
fn opening_reports_only_failures() {
    let mut state = home();
    press(&mut state, 'j');
    match press(&mut state, 'o') {
        Effect::Open(path) => assert_eq!(path, "/home/u/a.txt"),
        other => panic!("unexpected {:?}", other),
    }
    open_finished(&mut state, Ok(()));
    assert!(matches!(state.message, Notice::Empty));
    open_finished(&mut state, Err("no handler".to_string()));
    assert!(matches!(&state.message, Notice::OpenFailed(e) if e == "no handler"));
}

#[test]
fn cursor_stops_at_the_ends_and_is_remembered() {
    let mut state = home();
    press(&mut state, 'k');
    assert_eq!(state.file_cursor, Some(0));
    press(&mut state, 'j');
    press(&mut state, 'j');
    assert_eq!(state.file_cursor, Some(1));
    assert_eq!(state.list_state_index_of_directory.get(&"/home/u".to_string()), Some(1));
}

#[test]
fn toggles_of_panes_and_cheatsheet() {
    let mut state = home();
    press(&mut state, 'c');
    assert!(state.show_cheatsheet);
    handle_key_event(&mut state, Key::Esc);
    assert!(!state.show_cheatsheet);
    press(&mut state, 's');
    assert!(!state.show_selected_files_window);
    press(&mut state, '2');
    assert_eq!(state.selected_files_cursor, None);
    assert!(matches!(press(&mut state, 'x'), Effect::Nothing));
}

#[test]
fn a_created_entry_appears_after_the_watch_reports_it() {
    let mut state = home();
    assert!(!events_need_refresh(&vec![WatchEvent::Other]));
    assert!(!events_need_refresh(&vec![]));
    let events = vec![WatchEvent::Other, WatchEvent::Created, WatchEvent::Removed];
    assert!(events_need_refresh(&events));
    assert!(events_need_refresh(&vec![WatchEvent::NameChanged]));
    let mut after = home_raw();
    after.push(("/home/u/new.txt".to_string(), false));
    refresh_files_for_working_directory(&mut state, Ok(after));
    assert_eq!(names(&state), vec!["sub/", "a.txt", "new.txt"]);
}

#[test]
fn watch_follows_the_working_directory() {
    let mut state = home();
    match state.watch.plan(&state.working_directory) {
        WatchCommand::Bind { dir } => assert_eq!(dir, "/home/u"),
        _ => panic!("expected a first bind"),
    }
    watch_rebound(&mut state, Ok(()));
    assert!(state.watch.live);
    assert!(matches!(state.watch.plan(&state.working_directory), WatchCommand::Keep));
    press(&mut state, 'l');
    enter_directory(&mut state, Ok(vec![]));
    match state.watch.plan(&state.working_directory) {
        WatchCommand::Rebind { from, to } => {
            assert_eq!(from, "/home/u");
            assert_eq!(to, "/home/u/sub");
        }
        _ => panic!("expected a rebind"),
    }
    watch_rebound(&mut state, Err("denied".to_string()));
    assert!(!state.watch.live);
    assert!(matches!(&state.message, Notice::WatchFailed(e) if e == "denied"));
    assert!(matches!(state.watch.plan(&state.working_directory), WatchCommand::Keep));
    match state.watch.plan(&"/home/u".to_string()) {
        WatchCommand::Bind { dir } => assert_eq!(dir, "/home/u"),
        _ => panic!("expected a bind"),
    }
}

#[test]
fn watch_binding_records_its_target() {
    let mut w = WatchBinding::new();
    w.record("/a".to_string(), true);
    assert_eq!(w.watched.as_deref(), Some("/a"));
    assert!(w.live);
}

#[test]
fn cursor_memory_keeps_one_position_per_directory() {
    let mut m = CursorMemory::new();
    assert_eq!(m.get(&"/a".to_string()), None);
    m.insert("/a".to_string(), 3);
    m.insert("/b".to_string(), 1);
    m.insert("/a".to_string(), 5);
    assert_eq!(m.get(&"/a".to_string()), Some(5));
    assert_eq!(m.get(&"/b".to_string()), Some(1));
}

#[test]
fn a_posted_message_replaces_the_previous_one() {
    let mut state = home();
    file_explorer_tui::state::send_message_or_panic(&mut state, Notice::Renamed);
    assert!(matches!(state.message, Notice::Renamed));
    file_explorer_tui::state::send_message_or_panic(&mut state, Notice::EnterFailed("x".to_string()));
    assert!(matches!(&state.message, Notice::EnterFailed(e) if e == "x"));
    assert_eq!(names(&state), vec!["sub/", "a.txt"]);
}
