//! The transition table: what each key does in each mode.
use vstd::prelude::*;
use crate::cursor::{clamp_cursor, clamped_cursor, next_cursor, previous_cursor, select_next, select_previous};
use crate::file::{toggle_selected_file, toggled, File};
use crate::input_action::{
    asks_for_dir, create_path, create_request, finished_with, handle_delete_file, is_confirmation,
    rename_request, InputAction,
};
use crate::navigation::{cursor_or_zero, enter_target, refresh_list_state_index_of_directory};
use crate::path::{get_parent_dir, parent_dir};
use crate::state::{send_message_or_panic, AppState, Effect, Key, Notice};
use crate::widget::{add_char_input, handle_backspace, reset_current_message_and_input, Window};

verus! {

/// The entry under the cursor of the files pane, if any.
pub open spec fn highlighted(s: AppState) -> Option<File> {
    match s.file_cursor {
        Some(i) => if i < s.files@.len() {
            Some(s.files@[i as int])
        } else {
            None
        },
        None => None,
    }
}

/// A typed character goes to the text field and nothing else changes.
pub open spec fn typed(old: AppState, new: AppState, c: char) -> bool {
    &&& new.user_input@ == old.user_input@.push(c)
    &&& new == (AppState { user_input: new.user_input, ..old })
}

/// The cursor of the focused pane moved one step down (`down`) or up; in the
/// files pane the new position is remembered for the working directory.
pub open spec fn moved(old: AppState, new: AppState, down: bool) -> bool {
    match old.current_window {
        Window::Files => {
            &&& new.file_cursor == if down {
                next_cursor(old.file_cursor, old.files@.len())
            } else {
                previous_cursor(old.file_cursor, old.files@.len())
            }
            &&& new.list_state_index_of_directory@ == old.list_state_index_of_directory@.insert(
                old.working_directory@,
                cursor_or_zero(new.file_cursor),
            )
            &&& new == (AppState {
                file_cursor: new.file_cursor,
                list_state_index_of_directory: new.list_state_index_of_directory,
                ..old
            })
        },
        Window::SelectedFiles => {
            &&& new.selected_files_cursor == if down {
                next_cursor(old.selected_files_cursor, old.selected_files@.len())
            } else {
                previous_cursor(old.selected_files_cursor, old.selected_files@.len())
            }
            &&& new == (AppState { selected_files_cursor: new.selected_files_cursor, ..old })
        },
    }
}

/// The selection after toggling `e`, with its cursor kept within it.
pub open spec fn selection_toggled(old: AppState, new: AppState, e: File) -> bool {
    &&& new.selected_files@ == toggled(old.selected_files@, e)
    &&& new.selected_files_cursor == clamped_cursor(
        old.selected_files_cursor,
        new.selected_files@.len(),
    )
    &&& new == (AppState {
        selected_files: new.selected_files,
        selected_files_cursor: new.selected_files_cursor,
        ..old
    })
}

/// Space: toggles the highlighted entry of the focused pane in the selection.
pub open spec fn space_pressed(old: AppState, new: AppState) -> bool {
    match old.current_window {
        Window::Files => match highlighted(old) {
            Some(e) => selection_toggled(old, new, e),
            None => new == old,
        },
        Window::SelectedFiles => match old.selected_files_cursor {
            Some(i) => i < old.selected_files@.len() && selection_toggled(
                old,
                new,
                old.selected_files@[i as int],
            ),
            None => new == old,
        },
    }
}

/// `2`: focuses the selected-files pane, highlighting its first entry if none is.
pub open spec fn selection_focused(old: AppState, new: AppState) -> bool {
    if old.current_window is SelectedFiles {
        new == old
    } else {
        new == (AppState {
            current_window: Window::SelectedFiles,
            selected_files_cursor: if old.selected_files_cursor is None
                && old.selected_files@.len() > 0 {
                Some(0usize)
            } else {
                old.selected_files_cursor
            },
            ..old
        })
    }
}

/// `new` waits for text for `action` on `target`, with the text field
/// holding `input` and the prompt `message`.
pub open spec fn prompted(
    old: AppState,
    new: AppState,
    action: InputAction,
    target: Option<File>,
    input: Seq<char>,
    message: Notice,
) -> bool {
    &&& new.user_input@ == input
    &&& new == (AppState {
        input_action: action,
        action_target: target,
        user_input: new.user_input,
        message: message,
        ..old
    })
}

/// `D`: asks to confirm deleting the highlighted entry (files pane) or the
/// whole selection (selected-files pane).
pub open spec fn delete_prompted(old: AppState, new: AppState) -> bool {
    match old.current_window {
        Window::Files => match highlighted(old) {
            Some(e) => new.message is DeletePrompt && new.message->DeletePrompt_0@ == e.full_path@
                && prompted(old, new, InputAction::DeleteFile, Some(e), Seq::empty(), new.message),
            None => new == old,
        },
        Window::SelectedFiles => prompted(
            old,
            new,
            InputAction::DeleteFile,
            None,
            Seq::empty(),
            Notice::DeleteAllPrompt,
        ),
    }
}

/// `r`: asks for the new path of the highlighted entry, starting from its
/// current one.
pub open spec fn rename_prompted(old: AppState, new: AppState) -> bool {
    match highlighted(old) {
        Some(e) => prompted(
            old,
            new,
            InputAction::RenameFile,
            Some(e),
            e.full_path@,
            Notice::RenamePrompt,
        ),
        None => new == old,
    }
}

/// The request that entering the highlighted directory makes.
pub open spec fn enter_request(old: AppState, r: Effect) -> bool {
    match enter_target(old) {
        Some(t) => r is EnterDirectory && r->EnterDirectory_0@ == t.full_path@,
        None => r is Nothing,
    }
}

/// The request that opening the highlighted entry makes.
pub open spec fn open_request(old: AppState, r: Effect) -> bool {
    match highlighted(old) {
        Some(e) => r is Open && r->Open_0@ == e.full_path@,
        None => r is Nothing,
    }
}

/// What a character does while keys are commands.
pub open spec fn command(old: AppState, new: AppState, c: char, r: Effect) -> bool {
    if c == 'j' {
        r is Nothing && moved(old, new, true)
    } else if c == 'k' {
        r is Nothing && moved(old, new, false)
    } else if c == 'q' {
        r is Quit && new == old
    } else if c == ' ' {
        r is Nothing && space_pressed(old, new)
    } else if c == 'h' || c == '-' {
        r is ListParent && r->ListParent_0@ == parent_dir(old.working_directory@) && new == old
    } else if c == 'l' {
        enter_request(old, r) && new == old
    } else if c == '1' {
        r is Nothing && new == (AppState { current_window: Window::Files, ..old })
    } else if c == '2' {
        r is Nothing && selection_focused(old, new)
    } else if c == 'D' {
        r is Nothing && delete_prompted(old, new)
    } else if c == 'a' {
        r is Nothing && prompted(
            old,
            new,
            InputAction::CreateFile,
            None,
            Seq::empty(),
            Notice::CreatePrompt,
        )
    } else if c == 'o' {
        open_request(old, r) && new == old
    } else if c == 'r' {
        r is Nothing && rename_prompted(old, new)
    } else if c == 'c' {
        r is Nothing && new == (AppState { show_cheatsheet: !old.show_cheatsheet, ..old })
    } else if c == 's' {
        r is Nothing && new == (AppState {
            show_selected_files_window: !old.show_selected_files_window,
            ..old
        })
    } else if c == 'H' {
        r is Relist && new == (AppState {
            show_hidden_files: !old.show_hidden_files,
            message: Notice::HiddenFilesShown(!old.show_hidden_files),
            ..old
        })
    } else {
        r is Nothing && new == old
    }
}

/// Enter while text is being typed: asks for the pending action.
pub open spec fn action_requested(old: AppState, new: AppState, r: Effect) -> bool {
    match old.input_action {
        InputAction::CreateFile => {
            &&& r is CreateEntry
            &&& r->path@ == create_path(old)
            &&& r->is_dir == asks_for_dir(old.user_input@)
            &&& new == old
        },
        InputAction::DeleteFile => if !is_confirmation(old.user_input@) {
            r is Nothing && finished_with(old, new, Notice::Empty)
        } else if old.current_window is Files {
            r is DeleteEntry && r->DeleteEntry_0 == old.action_target->0 && new == old
        } else {
            r is DeleteEntries && r->DeleteEntries_0@ == old.selected_files@ && new == old
        },
        InputAction::RenameFile => {
            &&& r is Rename
            &&& r->from@ == old.action_target->0.full_path@
            &&& r->to@ == old.user_input@
            &&& new == old
        },
        InputAction::NoAction => false,
    }
}

/// The transition for `key`: while an action waits for text, characters and
/// backspace edit the text field, Esc leaves the action and Enter asks for it;
/// otherwise characters are commands, Enter enters the highlighted directory
/// and Esc hides the cheatsheet.
pub open spec fn key_transition(old: AppState, new: AppState, key: Key, r: Effect) -> bool {
    if old.input_action is NoAction {
        match key {
            Key::Char(c) => command(old, new, c, r),
            Key::Enter => enter_request(old, r) && new == old,
            Key::Esc => r is Nothing && new == (AppState { show_cheatsheet: false, ..old }),
            _ => r is Nothing && new == old,
        }
    } else {
        match key {
            Key::Char(c) => r is Nothing && typed(old, new, c),
            Key::Backspace => {
                &&& r is Nothing
                &&& new.user_input@ == if old.user_input@.len() == 0 {
                    old.user_input@
                } else {
                    old.user_input@.drop_last()
                }
                &&& new == (AppState { user_input: new.user_input, ..old })
            },
            Key::Esc => r is Nothing && finished_with(old, new, Notice::Empty),
            Key::Enter => action_requested(old, new, r),
            Key::Other => r is Nothing && new == old,
        }
    }
}

fn handle_escape(app_state: &mut AppState)
    requires
        old(app_state).wf(),
    ensures
        final(app_state).wf(),
        key_transition(*old(app_state), *final(app_state), Key::Esc, Effect::Nothing),
{
    if !(app_state.input_action == InputAction::NoAction) {
        reset_current_message_and_input(app_state);
    } else if app_state.show_cheatsheet {
        app_state.show_cheatsheet = false;
    }
}

/// The request to enter the highlighted directory.
fn enter_directory_request(app_state: &AppState) -> (r: Effect)
    requires
        app_state.wf(),
    ensures
        enter_request(*app_state, r),
{
    match app_state.file_cursor {
        Some(i) => if app_state.files[i].is_dir {
            Effect::EnterDirectory(app_state.files[i].full_path.clone())
        } else {
            Effect::Nothing
        },
        None => Effect::Nothing,
    }
}

fn handle_enter(app_state: &mut AppState) -> (r: Effect)
    requires
        old(app_state).wf(),
    ensures
        final(app_state).wf(),
        key_transition(*old(app_state), *final(app_state), Key::Enter, r),
{
    match app_state.input_action {
        InputAction::NoAction => enter_directory_request(app_state),
        InputAction::CreateFile => create_request(app_state),
        InputAction::DeleteFile => handle_delete_file(app_state),
        InputAction::RenameFile => rename_request(app_state),
    }
}

fn handle_move(app_state: &mut AppState, down: bool)
    requires
        old(app_state).wf(),
    ensures
        final(app_state).wf(),
        moved(*old(app_state), *final(app_state), down),
{
    match app_state.current_window {
        Window::Files => {
            let len = app_state.files.len();
            app_state.file_cursor = if down {
                select_next(app_state.file_cursor, len)
            } else {
                select_previous(app_state.file_cursor, len)
            };
            refresh_list_state_index_of_directory(app_state, Window::Files);
        },
        Window::SelectedFiles => {
            let len = app_state.selected_files.len();
            app_state.selected_files_cursor = if down {
                select_next(app_state.selected_files_cursor, len)
            } else {
                select_previous(app_state.selected_files_cursor, len)
            };
        },
    }
}

fn handle_space(app_state: &mut AppState)
    requires
        old(app_state).wf(),
    ensures
        final(app_state).wf(),
        space_pressed(*old(app_state), *final(app_state)),
{
    let selection = match app_state.current_window {
        Window::Files => match app_state.file_cursor {
            Some(i) => toggle_selected_file(&app_state.selected_files, &app_state.files[i]),
            None => {
                return;
            },
        },
        Window::SelectedFiles => match app_state.selected_files_cursor {
            Some(i) => toggle_selected_file(&app_state.selected_files, &app_state.selected_files[i]),
            None => {
                return;
            },
        },
    };
    proof {
        let e = if app_state.current_window is Files {
            app_state.files@[app_state.file_cursor->0 as int]
        } else {
            app_state.selected_files@[app_state.selected_files_cursor->0 as int]
        };
        crate::file::lemma_toggled_unique(app_state.selected_files@, e);
    }
    app_state.selected_files_cursor = clamp_cursor(app_state.selected_files_cursor, selection.len());
    app_state.selected_files = selection;
}

fn handle_two_char(app_state: &mut AppState)
    requires
        old(app_state).wf(),
    ensures
        final(app_state).wf(),
        selection_focused(*old(app_state), *final(app_state)),
{
    if app_state.current_window != Window::SelectedFiles {
        app_state.current_window = Window::SelectedFiles;
        if app_state.selected_files_cursor.is_none() && app_state.selected_files.len() > 0 {
            app_state.selected_files_cursor = Some(0);
        }
    }
}

fn handle_uppercase_d_char(app_state: &mut AppState)
    requires
        old(app_state).wf(),
        old(app_state).input_action is NoAction,
    ensures
        final(app_state).wf(),
        delete_prompted(*old(app_state), *final(app_state)),
{
    match app_state.current_window {
        Window::Files => match app_state.file_cursor {
            Some(i) => {
                let target = app_state.files[i].clone();
                app_state.message = Notice::DeletePrompt(target.full_path.clone());
                app_state.action_target = Some(target);
                app_state.input_action = InputAction::DeleteFile;
                app_state.user_input = String::new();
            },
            None => {},
        },
        Window::SelectedFiles => {
            app_state.message = Notice::DeleteAllPrompt;
            app_state.action_target = None;
            app_state.input_action = InputAction::DeleteFile;
            app_state.user_input = String::new();
        },
    }
}

fn handle_a_char(app_state: &mut AppState)
    requires
        old(app_state).wf(),
    ensures
        final(app_state).wf(),
        prompted(
            *old(app_state),
            *final(app_state),
            InputAction::CreateFile,
            None,
            Seq::empty(),
            Notice::CreatePrompt,
        ),
{
    app_state.message = Notice::CreatePrompt;
    app_state.action_target = None;
    app_state.input_action = InputAction::CreateFile;
    app_state.user_input = String::new();
}

fn handle_r_char(app_state: &mut AppState)
    requires
        old(app_state).wf(),
    ensures
        final(app_state).wf(),
        rename_prompted(*old(app_state), *final(app_state)),
{
    match app_state.file_cursor {
        Some(i) => {
            let target = app_state.files[i].clone();
            app_state.user_input = target.full_path.clone();
            app_state.message = Notice::RenamePrompt;
            app_state.action_target = Some(target);
            app_state.input_action = InputAction::RenameFile;
        },
        None => {},
    }
}

fn handle_o_char(app_state: &AppState) -> (r: Effect)
    requires
        app_state.wf(),
    ensures
        open_request(*app_state, r),
{
    match app_state.file_cursor {
        Some(i) => Effect::Open(app_state.files[i].full_path.clone()),
        None => Effect::Nothing,
    }
}

fn handle_uppercase_h_char(app_state: &mut AppState) -> (r: Effect)
    requires
        old(app_state).wf(),
    ensures
        final(app_state).wf(),
        r is Relist,
        *final(app_state) == (AppState {
            show_hidden_files: !old(app_state).show_hidden_files,
            message: Notice::HiddenFilesShown(!old(app_state).show_hidden_files),
            ..*old(app_state)
        }),
{
    app_state.show_hidden_files = !app_state.show_hidden_files;
    let shown = app_state.show_hidden_files;
    send_message_or_panic(app_state, Notice::HiddenFilesShown(shown));
    Effect::Relist
}

fn handle_char(c: char, app_state: &mut AppState) -> (r: Effect)
    requires
        old(app_state).wf(),
    ensures
        final(app_state).wf(),
        key_transition(*old(app_state), *final(app_state), Key::Char(c), r),
{
    if !(app_state.input_action == InputAction::NoAction) {
        add_char_input(c, app_state);
        return Effect::Nothing;
    }
    if c == 'j' {
        handle_move(app_state, true);
        Effect::Nothing
    } else if c == 'k' {
        handle_move(app_state, false);
        Effect::Nothing
    } else if c == 'q' {
        Effect::Quit
    } else if c == ' ' {
        handle_space(app_state);
        Effect::Nothing
    } else if c == 'h' || c == '-' {
        Effect::ListParent(get_parent_dir(&app_state.working_directory))
    } else if c == 'l' {
        enter_directory_request(app_state)
    } else if c == '1' {
        app_state.current_window = Window::Files;
        Effect::Nothing
    } else if c == '2' {
        handle_two_char(app_state);
        Effect::Nothing
    } else if c == 'D' {
        handle_uppercase_d_char(app_state);
        Effect::Nothing
    } else if c == 'a' {
        handle_a_char(app_state);
        Effect::Nothing
    } else if c == 'o' {
        handle_o_char(app_state)
    } else if c == 'r' {
        handle_r_char(app_state);
        Effect::Nothing
    } else if c == 'c' {
        app_state.show_cheatsheet = !app_state.show_cheatsheet;
        Effect::Nothing
    } else if c == 's' {
        app_state.show_selected_files_window = !app_state.show_selected_files_window;
        Effect::Nothing
    } else if c == 'H' {
        handle_uppercase_h_char(app_state)
    } else {
        Effect::Nothing
    }
}

/// Applies one key press and returns the outside work it asks for.
pub fn handle_key_event(app_state: &mut AppState, key: Key) -> (r: Effect)
    requires
        old(app_state).wf(),
    ensures
        final(app_state).wf(),
        key_transition(*old(app_state), *final(app_state), key, r),
{
    match key {
        Key::Char(c) => handle_char(c, app_state),
        Key::Backspace => {
            handle_backspace(app_state);
            Effect::Nothing
        },
        Key::Esc => {
            handle_escape(app_state);
            Effect::Nothing
        },
        Key::Enter => handle_enter(app_state),
        Key::Other => Effect::Nothing,
    }
}

/// While an action waits for text, a character key, `j`, `k`, `h` and `l`
/// included, only extends the text: the cursors, the working directory, the
/// listing and the selection stay, and no outside work is asked for.
pub proof fn lemma_typing_keeps_place(old: AppState, new: AppState, c: char, r: Effect)
    requires
        !(old.input_action is NoAction),
        key_transition(old, new, Key::Char(c), r),
    ensures
        r is Nothing,
        new.user_input@ == old.user_input@.push(c),
        new.input_action == old.input_action,
        new.file_cursor == old.file_cursor,
        new.selected_files_cursor == old.selected_files_cursor,
        new.working_directory == old.working_directory,
        new.files == old.files,
        new.selected_files == old.selected_files,
        new.list_state_index_of_directory == old.list_state_index_of_directory,
{
}

} // verus!
