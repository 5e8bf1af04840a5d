//! Moving between directories, refreshing the listing, and the memory of the
//! cursor in each directory.
use vstd::prelude::*;
use crate::cursor::{clamp_cursor, clamped_cursor, cursor_in, restored_cursor};
use crate::file::File;
use crate::path::{get_parent_dir, parent_dir};
use crate::state::{is_sorted_listing_of, listing_from, send_message_or_panic, AppState, Notice};
use crate::widget::Window;

verus! {

/// The position to remember for a cursor: its index, or the first entry.
pub open spec fn cursor_or_zero(c: Option<usize>) -> usize {
    match c {
        Some(i) => i,
        None => 0,
    }
}

/// The directory under the cursor of the files pane, if it is one.
pub open spec fn enter_target(s: AppState) -> Option<File> {
    match s.file_cursor {
        Some(i) => if i < s.files@.len() && s.files@[i as int].is_dir {
            Some(s.files@[i as int])
        } else {
            None
        },
        None => None,
    }
}

/// The cursor memory once the position in the working directory is recorded.
pub open spec fn memory_on_leaving(s: AppState) -> Map<Seq<char>, usize> {
    s.list_state_index_of_directory@.insert(s.working_directory@, cursor_or_zero(s.file_cursor))
}

/// `new` is `old` moved to the directory `dir`, whose listing was read as `raw`:
/// the position in the old directory is remembered, and the one remembered for
/// `dir` is restored where it still names an entry.
pub open spec fn moved_to(old: AppState, new: AppState, dir: Seq<char>, raw: Seq<(String, bool)>) -> bool {
    &&& new.working_directory@ == dir
    &&& is_sorted_listing_of(new.files@, raw, old.show_hidden_files)
    &&& new.list_state_index_of_directory@ == memory_on_leaving(old)
    &&& new.file_cursor == restored_cursor(memory_on_leaving(old), dir, new.files@.len())
    &&& new == (AppState {
        files: new.files,
        working_directory: new.working_directory,
        file_cursor: new.file_cursor,
        list_state_index_of_directory: new.list_state_index_of_directory,
        ..old
    })
}

/// `new` is `old` after a directory could not be listed: the position in the
/// working directory is remembered and the error is shown.
pub open spec fn stayed_after_error(old: AppState, new: AppState, message: Notice) -> bool {
    &&& new.list_state_index_of_directory@ == memory_on_leaving(old)
    &&& new == (AppState {
        list_state_index_of_directory: new.list_state_index_of_directory,
        message: message,
        ..old
    })
}

pub fn get_is_in_input_mode(app_state: &AppState) -> (r: bool)
    ensures
        r == !(app_state.input_action is NoAction),
{
    !(app_state.input_action == crate::input_action::InputAction::NoAction)
}

/// Records the cursor of the files pane as the position in the working
/// directory; the selected-files pane is not tied to a directory, so its cursor
/// is not recorded.
pub fn refresh_list_state_index_of_directory(app_state: &mut AppState, current_window: Window)
    requires
        old(app_state).wf(),
    ensures
        final(app_state).wf(),
        current_window is Files ==> final(app_state).list_state_index_of_directory@ == memory_on_leaving(
            *old(app_state),
        ),
        current_window is SelectedFiles ==> final(app_state).list_state_index_of_directory@ == old(
            app_state,
        ).list_state_index_of_directory@,
        *final(app_state) == (AppState {
            list_state_index_of_directory: final(app_state).list_state_index_of_directory,
            ..*old(app_state)
        }),
{
    match current_window {
        Window::Files => {
            let index = match app_state.file_cursor {
                Some(i) => i,
                None => 0,
            };
            let dir = app_state.working_directory.clone();
            app_state.list_state_index_of_directory.insert(dir, index);
        },
        Window::SelectedFiles => {},
    }
}

/// Replaces the listing with a fresh one of the working directory, read as
/// `listing`; the cursor stays, kept within the new listing. When the directory
/// could not be read, the listing stays and the error is shown.
pub fn refresh_files_for_working_directory(
    app_state: &mut AppState,
    listing: Result<Vec<(String, bool)>, String>,
)
    requires
        old(app_state).wf(),
    ensures
        final(app_state).wf(),
        match listing {
            Ok(raw) => {
                &&& is_sorted_listing_of(
                    final(app_state).files@,
                    raw@,
                    old(app_state).show_hidden_files,
                )
                &&& final(app_state).file_cursor == clamped_cursor(
                    old(app_state).file_cursor,
                    final(app_state).files@.len(),
                )
                &&& *final(app_state) == (AppState {
                    files: final(app_state).files,
                    file_cursor: final(app_state).file_cursor,
                    ..*old(app_state)
                })
            },
            Err(e) => *final(app_state) == (AppState {
                message: Notice::ListingFailed(e),
                ..*old(app_state)
            }),
        },
{
    match listing {
        Ok(raw) => {
            let files = listing_from(&raw, app_state.show_hidden_files);
            app_state.file_cursor = clamp_cursor(app_state.file_cursor, files.len());
            app_state.files = files;
        },
        Err(e) => {
            send_message_or_panic(app_state, Notice::ListingFailed(e));
        },
    }
}

/// Enters the directory under the cursor of the files pane, whose listing was
/// read as `listing`. Nothing happens when the cursor is not on a directory.
pub fn enter_directory(app_state: &mut AppState, listing: Result<Vec<(String, bool)>, String>)
    requires
        old(app_state).wf(),
    ensures
        final(app_state).wf(),
        enter_target(*old(app_state)) is None ==> *final(app_state) == *old(app_state),
        enter_target(*old(app_state)) is Some ==> match listing {
            Ok(raw) => moved_to(
                *old(app_state),
                *final(app_state),
                enter_target(*old(app_state))->0.full_path@,
                raw@,
            ),
            Err(e) => stayed_after_error(*old(app_state), *final(app_state), Notice::EnterFailed(e)),
        },
{
    let target = match app_state.file_cursor {
        Some(i) => {
            if app_state.files[i].is_dir {
                app_state.files[i].full_path.clone()
            } else {
                return;
            }
        },
        None => {
            return;
        },
    };
    refresh_list_state_index_of_directory(app_state, Window::Files);
    match listing {
        Ok(raw) => {
            let files = listing_from(&raw, app_state.show_hidden_files);
            let remembered = app_state.list_state_index_of_directory.get(&target);
            app_state.file_cursor = restore_cursor(remembered, files.len());
            app_state.working_directory = target;
            app_state.files = files;
        },
        Err(e) => {
            send_message_or_panic(app_state, Notice::EnterFailed(e));
        },
    }
}

/// Moves to the parent of the working directory, whose listing was read as
/// `listing`. The root is its own parent.
pub fn navigate_to_parent_directory(
    app_state: &mut AppState,
    listing: Result<Vec<(String, bool)>, String>,
)
    requires
        old(app_state).wf(),
    ensures
        final(app_state).wf(),
        match listing {
            Ok(raw) => moved_to(
                *old(app_state),
                *final(app_state),
                parent_dir(old(app_state).working_directory@),
                raw@,
            ),
            Err(e) => stayed_after_error(*old(app_state), *final(app_state), Notice::ListingFailed(e)),
        },
{
    let target = get_parent_dir(&app_state.working_directory);
    refresh_list_state_index_of_directory(app_state, Window::Files);
    match listing {
        Ok(raw) => {
            let files = listing_from(&raw, app_state.show_hidden_files);
            let remembered = app_state.list_state_index_of_directory.get(&target);
            app_state.file_cursor = restore_cursor(remembered, files.len());
            app_state.working_directory = target;
            app_state.files = files;
        },
        Err(e) => {
            send_message_or_panic(app_state, Notice::ListingFailed(e));
        },
    }
}

/// The cursor in a listing of length `len`, given the position remembered for
/// its directory.
fn restore_cursor(remembered: Option<usize>, len: usize) -> (r: Option<usize>)
    ensures
        cursor_in(r, len as nat),
        forall|m: Map<Seq<char>, usize>, d: Seq<char>|
            remembered == (if m.contains_key(d) {
                Some(m[d])
            } else {
                None
            }) ==> r == #[trigger] restored_cursor(m, d, len as nat),
{
    if len == 0 {
        None
    } else {
        match remembered {
            Some(i) => if i < len {
                Some(i)
            } else {
                Some(0)
            },
            None => Some(0),
        }
    }
}

/// Leaving a directory for another one and coming back restores the cursor
/// that was in it when it was left, where the listing is still long enough;
/// otherwise the cursor falls back to the first entry.
pub proof fn lemma_return_restores_cursor(
    s0: AppState,
    s1: AppState,
    s2: AppState,
    away: Seq<char>,
    raw1: Seq<(String, bool)>,
    raw2: Seq<(String, bool)>,
)
    requires
        away != s0.working_directory@,
        moved_to(s0, s1, away, raw1),
        moved_to(s1, s2, s0.working_directory@, raw2),
    ensures
        s2.file_cursor == if s2.files@.len() == 0 {
            None
        } else if cursor_or_zero(s0.file_cursor) < s2.files@.len() {
            Some(cursor_or_zero(s0.file_cursor))
        } else {
            Some(0usize)
        },
{
    let m1 = memory_on_leaving(s0);
    assert(m1.contains_key(s0.working_directory@));
    assert(memory_on_leaving(s1) == m1.insert(away, cursor_or_zero(s1.file_cursor)));
    assert(memory_on_leaving(s1)[s0.working_directory@] == cursor_or_zero(s0.file_cursor));
}

} // verus!
