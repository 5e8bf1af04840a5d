//! The modal input flows: what the text typed in creates, deletes or renames.
use vstd::prelude::*;
use crate::cursor::{clamp_cursor, clamped_cursor};
use crate::file::{has_path, lemma_without_path, remove_path, unique_paths, without_path, File};
use crate::state::{send_message_or_panic, AppState, Effect, Notice};
use crate::widget::{reset_current_message_and_input, reset_input, Window};

verus! {

/// Whether keys are navigation commands (`NoAction`) or text for a pending
/// action.
#[derive(PartialEq, Eq, Structural, Clone, Copy, Debug)]
pub enum InputAction {
    NoAction,
    DeleteFile,
    CreateFile,
    RenameFile,
}

/// The text that confirms a deletion: `y` or `yes`, exactly.
pub open spec fn is_confirmation(s: Seq<char>) -> bool {
    s == seq!['y'] || s == seq!['y', 'e', 's']
}

/// The path to create: the working directory, a `/`, and the text typed in.
pub open spec fn create_path(s: AppState) -> Seq<char> {
    s.working_directory@ + seq!['/'] + s.user_input@
}

/// Text that ends with `/` asks for a directory.
pub open spec fn asks_for_dir(input: Seq<char>) -> bool {
    input.len() > 0 && input.last() == '/'
}

/// `new` is `old` with the pending action left and the message `message`.
pub open spec fn finished_with(old: AppState, new: AppState, message: Notice) -> bool {
    &&& new.user_input@.len() == 0
    &&& new == (AppState {
        user_input: new.user_input,
        input_action: InputAction::NoAction,
        action_target: None,
        message: message,
        ..old
    })
}

/// `new` is `old` with the pending action left, the selection `selection`,
/// and the message `message`.
pub open spec fn finished_with_selection(old: AppState, new: AppState, selection: Seq<File>, message: Notice) -> bool {
    &&& new.user_input@.len() == 0
    &&& new.selected_files@ == selection
    &&& new.selected_files_cursor == clamped_cursor(old.selected_files_cursor, selection.len())
    &&& new == (AppState {
        user_input: new.user_input,
        input_action: InputAction::NoAction,
        action_target: None,
        message: message,
        selected_files: new.selected_files,
        selected_files_cursor: new.selected_files_cursor,
        ..old
    })
}

/// The request to create what the text field names.
pub fn create_request(app_state: &AppState) -> (r: Effect)
    ensures
        r is CreateEntry,
        r->path@ == create_path(*app_state),
        r->is_dir == asks_for_dir(app_state.user_input@),
{
    let mut path = app_state.working_directory.clone();
    path.append("/");
    path.append(app_state.user_input.as_str());
    proof {
        reveal_strlit("/");
    }
    assert(path@ =~= create_path(*app_state));
    let input = app_state.user_input.as_str();
    let n = input.unicode_len();
    let is_dir = n > 0 && input.get_char(n - 1) == '/';
    Effect::CreateEntry { path, is_dir }
}

/// Takes the outcome of creating `path`: reports it, leaves the input mode and
/// asks for a fresh listing.
pub fn handle_create_file(app_state: &mut AppState, path: String, is_dir: bool, result: Result<(), String>) -> (r: Effect)
    requires
        old(app_state).wf(),
    ensures
        final(app_state).wf(),
        r is Relist,
        match result {
            Ok(()) => finished_with(
                *old(app_state),
                *final(app_state),
                Notice::Created { path: path, is_dir: is_dir },
            ),
            Err(e) => finished_with(*old(app_state), *final(app_state), Notice::CreateFailed(e)),
        },
{
    reset_input(app_state);
    match result {
        Ok(()) => {
            send_message_or_panic(app_state, Notice::Created { path, is_dir });
        },
        Err(e) => {
            send_message_or_panic(app_state, Notice::CreateFailed(e));
        },
    }
    Effect::Relist
}

fn clone_files(v: &Vec<File>) -> (r: Vec<File>)
    ensures
        r@ == v@,
{
    let mut r: Vec<File> = Vec::new();
    let mut i: usize = 0;
    while i < v.len()
        invariant
            i <= v.len(),
            r@ == v@.take(i as int),
        decreases v.len() - i,
    {
        r.push(v[i].clone());
        i = i + 1;
        assert(r@ =~= v@.take(i as int));
    }
    assert(v@.take(i as int) =~= v@);
    r
}

/// Enter while a deletion waits for confirmation. Confirmed, it asks to delete
/// the entry it was started on (files pane) or every selected entry
/// (selected-files pane); otherwise it leaves the input mode and deletes
/// nothing.
pub fn handle_delete_file(app_state: &mut AppState) -> (r: Effect)
    requires
        old(app_state).wf(),
        old(app_state).input_action is DeleteFile,
    ensures
        final(app_state).wf(),
        is_confirmation(old(app_state).user_input@) && old(app_state).current_window is Files ==> r
            is DeleteEntry && r->DeleteEntry_0 == old(app_state).action_target->0 && *final(app_state)
            == *old(app_state),
        is_confirmation(old(app_state).user_input@) && old(app_state).current_window is SelectedFiles
            ==> r is DeleteEntries && r->DeleteEntries_0@ == old(app_state).selected_files@
            && *final(app_state) == *old(app_state),
        !is_confirmation(old(app_state).user_input@) ==> r is Nothing && finished_with(
            *old(app_state),
            *final(app_state),
            Notice::Empty,
        ),
{
    let y = String::from_str("y");
    let yes = String::from_str("yes");
    proof {
        reveal_strlit("y");
        reveal_strlit("yes");
        assert(y@ =~= seq!['y']);
        assert(yes@ =~= seq!['y', 'e', 's']);
    }
    let is_confirmed = app_state.user_input == y || app_state.user_input == yes;
    if is_confirmed {
        match app_state.current_window {
            Window::Files => match &app_state.action_target {
                Some(target) => Effect::DeleteEntry(target.clone()),
                None => Effect::Nothing,
            },
            Window::SelectedFiles => Effect::DeleteEntries(clone_files(&app_state.selected_files)),
        }
    } else {
        reset_current_message_and_input(app_state);
        Effect::Nothing
    }
}

/// Takes the outcome of deleting the entry a deletion was started on. Once it
/// is gone it also leaves the selection. Either way the input mode is left and
/// a fresh listing is asked for.
pub fn delete_currently_selected_file(app_state: &mut AppState, result: Result<(), String>) -> (r: Effect)
    requires
        old(app_state).wf(),
    ensures
        final(app_state).wf(),
        r is Relist,
        old(app_state).action_target is None ==> finished_with(
            *old(app_state),
            *final(app_state),
            old(app_state).message,
        ),
        old(app_state).action_target is Some ==> match result {
            Ok(()) => finished_with_selection(
                *old(app_state),
                *final(app_state),
                without_path(
                    old(app_state).selected_files@,
                    old(app_state).action_target->0.full_path@,
                ),
                Notice::Empty,
            ),
            Err(e) => finished_with(
                *old(app_state),
                *final(app_state),
                Notice::DeleteFailed {
                    path: old(app_state).action_target->0.full_path,
                    error: e,
                },
            ),
        },
        old(app_state).action_target is Some && result is Ok ==> !has_path(
            final(app_state).selected_files@,
            old(app_state).action_target->0.full_path@,
        ),
{
    let target = app_state.action_target.clone();
    match target {
        Some(file) => {
            match result {
                Ok(()) => {
                    let selection = remove_path(&app_state.selected_files, &file.full_path);
                    proof {
                        lemma_without_path(app_state.selected_files@, file.full_path@);
                    }
                    app_state.selected_files_cursor = clamp_cursor(
                        app_state.selected_files_cursor,
                        selection.len(),
                    );
                    app_state.selected_files = selection;
                    app_state.message = Notice::Empty;
                },
                Err(e) => {
                    app_state.message = Notice::DeleteFailed { path: file.full_path, error: e };
                },
            }
        },
        None => {},
    }
    reset_input(app_state);
    Effect::Relist
}

/// The entries of `s` whose deletion failed, in order: those `i` where
/// `deleted[i]` is false.
pub open spec fn not_deleted(s: Seq<File>, deleted: Seq<bool>) -> Seq<File>
    decreases s.len(),
{
    if s.len() == 0 || deleted.len() == 0 {
        Seq::empty()
    } else if deleted.last() {
        not_deleted(s.drop_last(), deleted.drop_last())
    } else {
        not_deleted(s.drop_last(), deleted.drop_last()).push(s.last())
    }
}

proof fn lemma_not_deleted(s: Seq<File>, deleted: Seq<bool>)
    requires
        s.len() == deleted.len(),
    ensures
        forall|k: int|
            0 <= k < not_deleted(s, deleted).len() ==> exists|i: int|
                0 <= i < s.len() && !deleted[i] && #[trigger] not_deleted(s, deleted)[k] == s[i],
        not_deleted(s, deleted).len() <= s.len(),
        unique_paths(s) ==> unique_paths(not_deleted(s, deleted)),
        unique_paths(s) ==> forall|i: int|
            0 <= i < s.len() && #[trigger] deleted[i] ==> !has_path(not_deleted(s, deleted), s[i].full_path@),
    decreases s.len(),
{
    if s.len() > 0 {
        let t = s.drop_last();
        let d = deleted.drop_last();
        lemma_not_deleted(t, d);
        let r0 = not_deleted(t, d);
        let r = not_deleted(s, deleted);
        if deleted.last() {
            assert(r == r0);
        } else {
            assert(r == r0.push(s.last()));
        }
        assert forall|k: int| 0 <= k < r.len() implies exists|i: int|
            0 <= i < s.len() && !deleted[i] && #[trigger] r[k] == s[i] by {
            if k < r0.len() {
                assert(r[k] == r0[k]);
                let i = choose|i: int| 0 <= i < t.len() && !d[i] && #[trigger] r0[k] == t[i];
                assert(s[i] == t[i] && deleted[i] == d[i]);
            } else {
                assert(r[k] == s[s.len() - 1]);
            }
        }
        if unique_paths(s) {
            assert(unique_paths(t)) by {
                assert forall|i: int, j: int| 0 <= i < j < t.len() implies #[trigger] t[i].full_path@
                    != #[trigger] t[j].full_path@ by {
                    assert(s[i] == t[i] && s[j] == t[j]);
                }
            }
            assert forall|a: int, b: int| 0 <= a < b < r.len() implies #[trigger] r[a].full_path@
                != #[trigger] r[b].full_path@ by {
                if b < r0.len() {
                    assert(r[a] == r0[a] && r[b] == r0[b]);
                } else {
                    assert(r[a] == r0[a]);
                    let i = choose|i: int| 0 <= i < t.len() && !d[i] && #[trigger] r0[a] == t[i];
                    assert(s[i] == t[i]);
                    assert(r[b] == s[s.len() - 1]);
                }
            }
            assert forall|i: int| 0 <= i < s.len() && #[trigger] deleted[i] implies !has_path(
                r,
                s[i].full_path@,
            ) by {
                if has_path(r, s[i].full_path@) {
                    let k = choose|k: int| 0 <= k < r.len() && #[trigger] r[k].full_path@ == s[i].full_path@;
                    let m = choose|m: int| 0 <= m < s.len() && !deleted[m] && #[trigger] r[k] == s[m];
                    assert(m != i);
                }
            }
        }
    }
}

/// The message after deleting the selection: how many entries could not be
/// deleted, if any.
pub open spec fn failures_notice(failed: nat) -> Notice {
    if failed == 0 {
        Notice::Empty
    } else {
        Notice::DeleteFailures(failed as usize)
    }
}

/// Takes the outcome of deleting every selected entry: `deleted[i]` tells
/// whether the `i`-th one is gone. The deleted ones leave the selection; the
/// others stay and are counted in the message. The input mode is left and a
/// fresh listing is asked for.
pub fn delete_selected_files(app_state: &mut AppState, deleted: &Vec<bool>) -> (r: Effect)
    requires
        old(app_state).wf(),
        deleted.len() == old(app_state).selected_files.len(),
    ensures
        final(app_state).wf(),
        r is Relist,
        finished_with_selection(
            *old(app_state),
            *final(app_state),
            not_deleted(old(app_state).selected_files@, deleted@),
            failures_notice(not_deleted(old(app_state).selected_files@, deleted@).len()),
        ),
        forall|i: int|
            0 <= i < deleted.len() && #[trigger] deleted@[i] ==> !has_path(
                final(app_state).selected_files@,
                old(app_state).selected_files@[i].full_path@,
            ),
{
    let ghost s = app_state.selected_files@;
    let mut kept: Vec<File> = Vec::new();
    let mut i: usize = 0;
    while i < deleted.len()
        invariant
            i <= deleted.len(),
            deleted.len() == app_state.selected_files.len(),
            app_state.selected_files@ == s,
            kept@ == not_deleted(s.take(i as int), deleted@.take(i as int)),
        decreases deleted.len() - i,
    {
        assert(s.take(i + 1).drop_last() =~= s.take(i as int));
        assert(deleted@.take(i + 1).drop_last() =~= deleted@.take(i as int));
        if !deleted[i] {
            kept.push(app_state.selected_files[i].clone());
        }
        i = i + 1;
    }
    assert(s.take(i as int) =~= s);
    assert(deleted@.take(i as int) =~= deleted@);
    proof {
        lemma_not_deleted(s, deleted@);
    }
    let failed = kept.len();
    app_state.selected_files_cursor = clamp_cursor(app_state.selected_files_cursor, kept.len());
    app_state.selected_files = kept;
    reset_input(app_state);
    if failed == 0 {
        app_state.message = Notice::Empty;
    } else {
        app_state.message = Notice::DeleteFailures(failed);
    }
    Effect::Relist
}

/// The request to rename the entry a rename was started on to the text typed in.
pub fn rename_request(app_state: &AppState) -> (r: Effect)
    requires
        app_state.wf(),
        app_state.input_action is RenameFile,
    ensures
        r is Rename,
        r->from@ == app_state.action_target->0.full_path@,
        r->to@ == app_state.user_input@,
{
    match &app_state.action_target {
        Some(target) => Effect::Rename {
            from: target.full_path.clone(),
            to: app_state.user_input.clone(),
        },
        None => Effect::Nothing,
    }
}

/// Takes the outcome of a rename: reports it, leaves the input mode and asks
/// for a fresh listing.
pub fn handle_rename_file(app_state: &mut AppState, result: Result<(), String>) -> (r: Effect)
    requires
        old(app_state).wf(),
    ensures
        final(app_state).wf(),
        r is Relist,
        match result {
            Ok(()) => finished_with(*old(app_state), *final(app_state), Notice::Renamed),
            Err(e) => finished_with(*old(app_state), *final(app_state), Notice::RenameFailed(e)),
        },
{
    reset_input(app_state);
    match result {
        Ok(()) => {
            send_message_or_panic(app_state, Notice::Renamed);
        },
        Err(e) => {
            send_message_or_panic(app_state, Notice::RenameFailed(e));
        },
    }
    Effect::Relist
}

/// Takes the outcome of opening an entry with the system's application: only
/// a failure is shown.
pub fn open_finished(app_state: &mut AppState, result: Result<(), String>)
    ensures
        match result {
            Ok(()) => *final(app_state) == *old(app_state),
            Err(e) => *final(app_state) == (AppState { message: Notice::OpenFailed(e), ..*old(app_state) }),
        },
{
    match result {
        Ok(()) => {},
        Err(e) => {
            send_message_or_panic(app_state, Notice::OpenFailed(e));
        },
    }
}

} // verus!
