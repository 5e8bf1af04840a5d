//! The panes, and the text field that takes input for a pending action.
use vstd::prelude::*;
use crate::file::File;
use crate::input_action::InputAction;
use crate::state::{AppState, Notice};
use crate::text::{pop_char, push_char};

verus! {

/// The pane that receives navigation keys.
#[derive(PartialEq, Eq, Structural, Clone, Copy, Debug)]
pub enum Window {
    Files,
    SelectedFiles,
}

/// Leaves the pending action: the text field is emptied and keys navigate again.
pub fn reset_input(app_state: &mut AppState)
    requires
        old(app_state).wf(),
    ensures
        final(app_state).wf(),
        final(app_state).user_input@.len() == 0,
        *final(app_state) == (AppState {
            user_input: final(app_state).user_input,
            input_action: InputAction::NoAction,
            action_target: None,
            ..*old(app_state)
        }),
{
    app_state.user_input = String::new();
    app_state.input_action = InputAction::NoAction;
    app_state.action_target = None;
}

/// Leaves the pending action, as `reset_input` does, and clears the message.
pub fn reset_current_message_and_input(app_state: &mut AppState)
    requires
        old(app_state).wf(),
    ensures
        final(app_state).wf(),
        final(app_state).user_input@.len() == 0,
        *final(app_state) == (AppState {
            user_input: final(app_state).user_input,
            input_action: InputAction::NoAction,
            action_target: None,
            message: Notice::Empty,
            ..*old(app_state)
        }),
{
    reset_input(app_state);
    app_state.message = Notice::Empty;
}

/// Appends a typed character to the text field.
pub fn add_char_input(new_char: char, app_state: &mut AppState)
    ensures
        final(app_state).user_input@ == old(app_state).user_input@.push(new_char),
        *final(app_state) == (AppState { user_input: final(app_state).user_input, ..*old(app_state) }),
{
    push_char(&mut app_state.user_input, new_char);
}

/// Removes the last character of the text field while an action is pending.
pub fn handle_backspace(app_state: &mut AppState)
    ensures
        old(app_state).input_action is NoAction ==> *final(app_state) == *old(app_state),
        !(old(app_state).input_action is NoAction) ==> final(app_state).user_input@ == if old(
            app_state,
        ).user_input@.len() == 0 {
            old(app_state).user_input@
        } else {
            old(app_state).user_input@.drop_last()
        },
        *final(app_state) == (AppState { user_input: final(app_state).user_input, ..*old(app_state) }),
{
    if app_state.input_action == InputAction::NoAction {
        return;
    }
    let _ = pop_char(&mut app_state.user_input);
}

/// The entry under `cursor` in `list`, if the cursor names one.
pub fn get_selected_item_from_list_state(cursor: Option<usize>, list: &Vec<File>) -> (r: Option<&File>)
    ensures
        r == match cursor {
            Some(i) => if i < list@.len() {
                Some(&list@[i as int])
            } else {
                None
            },
            None => None,
        },
{
    match cursor {
        Some(i) => if i < list.len() {
            Some(&list[i])
        } else {
            None
        },
        None => None,
    }
}

} // verus!
