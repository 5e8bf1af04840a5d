//! The state of the browser, the keys it reads and the outside work it asks for.
use vstd::prelude::*;
use crate::cursor::{cursor_in, restored_cursor, CursorMemory};
use crate::file::{
    get_files_for_dir, is_listing_of, sort_file_paths_dirs_first_then_files, sorted_listing,
    unique_paths, File,
};
use crate::input_action::InputAction;
use crate::watch::WatchBinding;
use crate::widget::Window;

verus! {

/// A decoded key press.
#[derive(PartialEq, Eq, Structural, Clone, Copy, Debug)]
pub enum Key {
    Char(char),
    Backspace,
    Esc,
    Enter,
    /// Any other key.
    Other,
}

/// The message shown to the user.
#[derive(Debug)]
pub enum Notice {
    Empty,
    CreatePrompt,
    /// Asks to confirm the deletion of the entry at this path.
    DeletePrompt(String),
    DeleteAllPrompt,
    RenamePrompt,
    HiddenFilesShown(bool),
    Created { path: String, is_dir: bool },
    CreateFailed(String),
    DeleteFailed { path: String, error: String },
    /// How many entries of the selection could not be deleted.
    DeleteFailures(usize),
    Renamed,
    RenameFailed(String),
    EnterFailed(String),
    ListingFailed(String),
    OpenFailed(String),
    WatchFailed(String),
}

/// Outside work that a transition asks for. Each names the function that
/// takes its outcome.
#[derive(Debug)]
pub enum Effect {
    Nothing,
    /// Leave the program.
    Quit,
    /// List this directory, then call `enter_directory`.
    EnterDirectory(String),
    /// List this directory, then call `navigate_to_parent_directory`.
    ListParent(String),
    /// List the working directory, then call `refresh_files_for_working_directory`.
    Relist,
    /// Create a directory or an empty file, then call `handle_create_file`.
    CreateEntry { path: String, is_dir: bool },
    /// Delete this entry (a directory with its contents), then call
    /// `delete_currently_selected_file`.
    DeleteEntry(File),
    /// Delete each of these entries, then call `delete_selected_files`.
    DeleteEntries(Vec<File>),
    /// Rename `from` to `to`, then call `handle_rename_file`.
    Rename { from: String, to: String },
    /// Open this path with the system's default application, then call
    /// `open_finished`.
    Open(String),
}

/// The single record that every transition reads and updates.
pub struct AppState {
    pub files: Vec<File>,
    pub selected_files: Vec<File>,
    pub working_directory: String,
    pub current_window: Window,
    pub user_input: String,
    pub input_action: InputAction,
    /// The entry that a pending delete or rename acts on.
    pub action_target: Option<File>,
    pub file_cursor: Option<usize>,
    pub selected_files_cursor: Option<usize>,
    pub list_state_index_of_directory: CursorMemory,
    pub show_cheatsheet: bool,
    pub show_selected_files_window: bool,
    pub show_hidden_files: bool,
    pub message: Notice,
    pub watch: WatchBinding,
}

/// `files` is the sorted listing of the objects in `raw`.
pub open spec fn is_sorted_listing_of(files: Seq<File>, raw: Seq<(String, bool)>, hidden_files: bool) -> bool {
    exists|l: Seq<File>| is_listing_of(l, raw, hidden_files) && files == sorted_listing(l)
}

/// The sorted listing of what was read of a directory.
pub fn listing_from(raw: &Vec<(String, bool)>, hidden_files: bool) -> (r: Vec<File>)
    ensures
        is_sorted_listing_of(r@, raw@, hidden_files),
{
    let files = get_files_for_dir(raw, hidden_files);
    let r = sort_file_paths_dirs_first_then_files(&files);
    assert(is_listing_of(files@, raw@, hidden_files) && r@ == sorted_listing(files@));
    r
}

impl AppState {
    pub open spec fn wf(&self) -> bool {
        &&& unique_paths(self.selected_files@)
        &&& cursor_in(self.file_cursor, self.files@.len())
        &&& cursor_in(self.selected_files_cursor, self.selected_files@.len())
        &&& self.list_state_index_of_directory.wf()
        &&& (self.input_action is NoAction ==> self.user_input@.len() == 0)
        &&& (self.input_action is RenameFile ==> self.action_target is Some)
        &&& (self.input_action is DeleteFile && self.current_window is Files
            ==> self.action_target is Some)
    }

    /// The state at start-up in `initial_directory`, given what was read of it.
    pub fn new(initial_directory: String, raw: &Vec<(String, bool)>) -> (r: AppState)
        ensures
            r.wf(),
            r.working_directory@ == initial_directory@,
            is_sorted_listing_of(r.files@, raw@, false),
            r.selected_files@.len() == 0,
            r.list_state_index_of_directory@ == Map::<Seq<char>, usize>::empty().insert(
                initial_directory@,
                0,
            ),
            r.file_cursor == if r.files@.len() == 0 {
                None::<usize>
            } else {
                Some(0usize)
            },
            r.selected_files_cursor is None,
            r.current_window is Files,
            r.input_action is NoAction,
            r.user_input@.len() == 0,
            r.action_target is None,
            !r.show_cheatsheet,
            r.show_selected_files_window,
            !r.show_hidden_files,
            r.message is Empty,
            r.watch.watched is None,
    {
        let files = listing_from(raw, false);
        let mut memory = CursorMemory::new();
        memory.insert(initial_directory.clone(), 0);
        let file_cursor = if files.len() == 0 {
            None
        } else {
            Some(0)
        };
        AppState {
            files,
            selected_files: Vec::new(),
            working_directory: initial_directory,
            current_window: Window::Files,
            user_input: String::new(),
            input_action: InputAction::NoAction,
            action_target: None,
            file_cursor,
            selected_files_cursor: None,
            list_state_index_of_directory: memory,
            show_cheatsheet: false,
            show_selected_files_window: true,
            show_hidden_files: false,
            message: Notice::Empty,
            watch: WatchBinding::new(),
        }
    }
}

/// Posts `message` for the user; it replaces the one shown before.
pub fn send_message_or_panic(app_state: &mut AppState, message: Notice)
    ensures
        *final(app_state) == (AppState { message: message, ..*old(app_state) }),
{
    app_state.message = message;
}

} // verus!
