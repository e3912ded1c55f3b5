//! The event dispatcher: a function from the current state and one input
//! event to the next state, routed by mode. The whole state machine of the
//! interaction core is written down here as a transition relation, one spec
//! function per mode, and each handler is proved to implement its relation.
//!
//! Quitting is a control-flow outcome, not a stored mode: the dispatcher
//! returns `Ok(true)` when a quit was accepted, and the caller's loop ends.
//! Saving is delegated to the caller in the same way: the save combination
//! leaves the state untouched, and the caller persists the records.

use vstd::prelude::*;
use crate::error::AppError;
use crate::modal::{
    backspace_rel, built_record_matches, focus_next_rel, focus_prev_rel, insert_char_rel,
    modal_valid, validate_fail_rel, ModalState,
};
use crate::record::FruitDimensions;
use crate::state::{
    clamped_index, matching_indices, next_index, prev_index, AppMode, AppState,
    lemma_matching_indices_props,
};
use crate::text::{lower_of, pop_char, push_char};

verus! {

/// A key the dispatcher understands. The caller translates whatever its
/// input backend reports into one of these; anything else is `Other`.
#[derive(Debug, Clone, Copy, PartialEq, Eq, Structural)]
pub enum Key {
    /// A printable character.
    Char(char),
    Up,
    Down,
    Enter,
    Esc,
    Backspace,
    Tab,
    BackTab,
    /// The save combination (Ctrl+S).
    CtrlS,
    /// Any key the dispatcher ignores.
    Other,
}

/// An event that can change the application state.
#[derive(Debug, Clone, Copy, PartialEq, Eq, Structural)]
pub enum AppEvent {
    /// The user pressed a key.
    KeyPress(Key),
    /// Quit the application.
    Quit,
}

/// `post` is `pre`, unchanged in every component.
pub open spec fn same_state(pre: AppState, post: AppState) -> bool {
    &&& post.fruits@ == pre.fruits@
    &&& post.selected_index == pre.selected_index
    &&& post.mode == pre.mode
    &&& post.dirty == pre.dirty
    &&& post.filter_query@ == pre.filter_query@
    &&& post.filtered_indices@ == pre.filtered_indices@
    &&& post.error_message == pre.error_message
    &&& post.modal == pre.modal
}

/// `post` is `pre` with only the mode changed to `m`.
pub open spec fn same_but_mode(pre: AppState, post: AppState, m: AppMode) -> bool {
    &&& post.mode == m
    &&& post.fruits@ == pre.fruits@
    &&& post.selected_index == pre.selected_index
    &&& post.dirty == pre.dirty
    &&& post.filter_query@ == pre.filter_query@
    &&& post.filtered_indices@ == pre.filtered_indices@
    &&& post.error_message == pre.error_message
    &&& post.modal == pre.modal
}

/// Only the modal editor of `post` may differ from `pre`.
pub open spec fn same_but_modal(pre: AppState, post: AppState) -> bool {
    &&& post.mode == pre.mode
    &&& post.fruits@ == pre.fruits@
    &&& post.selected_index == pre.selected_index
    &&& post.dirty == pre.dirty
    &&& post.filter_query@ == pre.filter_query@
    &&& post.filtered_indices@ == pre.filtered_indices@
    &&& post.error_message == pre.error_message
}

/// A fresh modal editor: empty buffers, focus on the name, no error.
pub open spec fn modal_fresh(m: ModalState) -> bool {
    &&& m.name@.len() == 0
    &&& m.length@.len() == 0
    &&& m.width@.len() == 0
    &&& m.height@.len() == 0
    &&& m.focused_field is Name
    &&& m.error is None
}

/// A modal editor pre-filled from the record `f`, focused on the name.
pub open spec fn modal_prefilled(m: ModalState, f: FruitDimensions) -> bool {
    &&& m.name@ == f.name@
    &&& m.length@ == f.length@
    &&& m.width@ == f.width@
    &&& m.height@ == f.height@
    &&& m.focused_field is Name
    &&& m.error is None
}

/// The quit guard in normal mode. A showing status message is cleared
/// first (that press does not quit); with unsaved changes the "unsaved
/// changes" warning is shown instead of quitting; only a clean state quits.
pub open spec fn quit_step(pre: AppState, post: AppState, quit: bool) -> bool {
    if pre.error_message is Some {
        &&& post.same_except_error(pre)
        &&& post.error_message is None
        &&& !quit
    } else if pre.dirty {
        &&& post.same_except_error(pre)
        &&& post.error_message matches Some(m)
            && m@ == "Unsaved changes! Press Ctrl+S to save or press 'q' again to discard"@
        &&& !quit
    } else {
        &&& same_state(pre, post)
        &&& quit
    }
}

/// Pressing `a` in normal mode: a fresh modal editor opens in add mode.
pub open spec fn opens_add(pre: AppState, post: AppState) -> bool {
    &&& post.mode is AddFruit
    &&& post.modal matches Some(m) && modal_fresh(m)
    &&& post.fruits@ == pre.fruits@
    &&& post.selected_index == pre.selected_index
    &&& post.dirty == pre.dirty
    &&& post.filter_query@ == pre.filter_query@
    &&& post.filtered_indices@ == pre.filtered_indices@
    &&& post.error_message == pre.error_message
}

/// Pressing `e` in normal mode: with a selection, a modal pre-filled from
/// the selected record opens in edit mode; without one nothing happens.
pub open spec fn opens_edit(pre: AppState, post: AppState) -> bool {
    match pre.spec_selected_abs() {
        Some(i) => {
            &&& 0 <= i < pre.fruits@.len()
            &&& post.mode is EditFruit
            &&& post.modal matches Some(m) && modal_prefilled(m, pre.fruits@[i as int])
            &&& post.fruits@ == pre.fruits@
            &&& post.selected_index == pre.selected_index
            &&& post.dirty == pre.dirty
            &&& post.filter_query@ == pre.filter_query@
            &&& post.filtered_indices@ == pre.filtered_indices@
            &&& post.error_message == pre.error_message
        },
        None => same_state(pre, post),
    }
}

/// The transition table of normal mode.
pub open spec fn normal_step(pre: AppState, key: Key, post: AppState, quit: bool) -> bool {
    match key {
        Key::CtrlS => same_state(pre, post) && !quit,
        Key::Esc => quit_step(pre, post, quit),
        Key::Up => {
            &&& post.same_except_selection(pre)
            &&& post.selected_index as int
                == prev_index(pre.selected_index as int, pre.display_len() as int)
            &&& !quit
        },
        Key::Down => {
            &&& post.same_except_selection(pre)
            &&& post.selected_index as int
                == next_index(pre.selected_index as int, pre.display_len() as int)
            &&& !quit
        },
        Key::Char(c) => {
            if c == 'q' {
                quit_step(pre, post, quit)
            } else if c == 'k' {
                &&& post.same_except_selection(pre)
                &&& post.selected_index as int
                    == prev_index(pre.selected_index as int, pre.display_len() as int)
                &&& !quit
            } else if c == 'j' {
                &&& post.same_except_selection(pre)
                &&& post.selected_index as int
                    == next_index(pre.selected_index as int, pre.display_len() as int)
                &&& !quit
            } else if c == '/' {
                same_but_mode(pre, post, AppMode::Filter) && !quit
            } else if c == 'a' {
                opens_add(pre, post) && !quit
            } else if c == 'e' {
                opens_edit(pre, post) && !quit
            } else if c == 'd' {
                same_but_mode(pre, post, AppMode::ConfirmDelete) && !quit
            } else if c == '?' {
                same_but_mode(pre, post, AppMode::Help) && !quit
            } else {
                same_state(pre, post) && !quit
            }
        },
        _ => same_state(pre, post) && !quit,
    }
}

/// The transition table of filter mode. Typing and backspacing re-filter
/// at once and reset the selection to the top; Esc drops the filter;
/// Enter keeps it and returns to normal mode.
pub open spec fn filter_step(pre: AppState, key: Key, post: AppState) -> bool {
    match key {
        Key::Esc => {
            &&& post.mode is Normal
            &&& post.filter_query@.len() == 0
            &&& post.filtered_indices@ == matching_indices(post.fruits@, post.filter_query@)
            &&& post.fruits@ == pre.fruits@
            &&& post.selected_index == pre.selected_index
            &&& post.dirty == pre.dirty
            &&& post.error_message == pre.error_message
            &&& post.modal == pre.modal
        },
        Key::Backspace => {
            let shortened = if pre.filter_query@.len() > 0 {
                pre.filter_query@.drop_last()
            } else {
                pre.filter_query@
            };
            &&& post.filter_query@ == lower_of(shortened)
            &&& post.filtered_indices@ == matching_indices(pre.fruits@, lower_of(shortened))
            &&& post.selected_index == 0
            &&& post.mode == pre.mode
            &&& post.fruits@ == pre.fruits@
            &&& post.dirty == pre.dirty
            &&& post.error_message == pre.error_message
            &&& post.modal == pre.modal
        },
        Key::Char(c) => {
            let extended = pre.filter_query@.push(c);
            &&& post.filter_query@ == lower_of(extended)
            &&& post.filtered_indices@ == matching_indices(pre.fruits@, lower_of(extended))
            &&& post.selected_index == 0
            &&& post.mode == pre.mode
            &&& post.fruits@ == pre.fruits@
            &&& post.dirty == pre.dirty
            &&& post.error_message == pre.error_message
            &&& post.modal == pre.modal
        },
        Key::Enter => same_but_mode(pre, post, AppMode::Normal),
        _ => same_state(pre, post),
    }
}

/// The transition table of the delete confirmation. `y` deletes the
/// selected record (when there is one), clears the status message and
/// returns to normal mode; `n` or Esc only clears the message and returns.
pub open spec fn confirm_delete_step(pre: AppState, key: Key, post: AppState) -> bool {
    match key {
        Key::Char(c) => {
            if c == 'y' {
                match pre.spec_selected_abs() {
                    Some(i) => {
                        &&& 0 <= i < pre.fruits@.len()
                        &&& post.fruits@ == pre.fruits@.remove(i as int)
                        &&& post.dirty
                        &&& post.error_message is None
                        &&& post.mode is Normal
                        &&& post.modal == pre.modal
                        &&& post.filter_query@ == pre.filter_query@
                        &&& post.filtered_indices@
                            == matching_indices(post.fruits@, post.filter_query@)
                        &&& post.selected_index as int == clamped_index(
                            pre.selected_index as int,
                            post.display_len() as int,
                        )
                    },
                    None => same_but_mode(pre, post, AppMode::Normal),
                }
            } else if c == 'n' {
                &&& post.mode is Normal
                &&& post.error_message is None
                &&& post.fruits@ == pre.fruits@
                &&& post.selected_index == pre.selected_index
                &&& post.dirty == pre.dirty
                &&& post.filter_query@ == pre.filter_query@
                &&& post.filtered_indices@ == pre.filtered_indices@
                &&& post.modal == pre.modal
            } else {
                same_state(pre, post)
            }
        },
        Key::Esc => {
            &&& post.mode is Normal
            &&& post.error_message is None
            &&& post.fruits@ == pre.fruits@
            &&& post.selected_index == pre.selected_index
            &&& post.dirty == pre.dirty
            &&& post.filter_query@ == pre.filter_query@
            &&& post.filtered_indices@ == pre.filtered_indices@
            &&& post.modal == pre.modal
        },
        _ => same_state(pre, post),
    }
}

/// Closing a modal: it is discarded and the mode returns to normal;
/// everything else stays.
pub open spec fn modal_closes(pre: AppState, post: AppState) -> bool {
    &&& post.mode is Normal
    &&& post.modal is None
    &&& post.fruits@ == pre.fruits@
    &&& post.selected_index == pre.selected_index
    &&& post.dirty == pre.dirty
    &&& post.filter_query@ == pre.filter_query@
    &&& post.filtered_indices@ == pre.filtered_indices@
    &&& post.error_message == pre.error_message
}

/// A failed commit: the modal stays open with its error set; nothing else
/// moves.
pub open spec fn modal_commit_fails(pre: AppState, post: AppState, m1: ModalState) -> bool {
    &&& same_but_modal(pre, post)
    &&& post.modal matches Some(m2) && validate_fail_rel(m1, m2)
}

/// The transition table of the add modal.
pub open spec fn add_fruit_modal_step(pre: AppState, key: Key, post: AppState) -> bool {
    pre.modal matches Some(m1) ==> match key {
        Key::Esc => modal_closes(pre, post),
        Key::Tab => {
            &&& same_but_modal(pre, post)
            &&& post.modal matches Some(m2) && focus_next_rel(m1, m2)
        },
        Key::BackTab => {
            &&& same_but_modal(pre, post)
            &&& post.modal matches Some(m2) && focus_prev_rel(m1, m2)
        },
        Key::Backspace => {
            &&& same_but_modal(pre, post)
            &&& post.modal matches Some(m2) && backspace_rel(m1, m2)
        },
        Key::Enter => {
            if modal_valid(m1) {
                &&& post.fruits@.len() == pre.fruits@.len() + 1
                &&& post.fruits@.drop_last() == pre.fruits@
                &&& built_record_matches(post.fruits@.last(), m1)
                &&& post.dirty
                &&& post.modal is None
                &&& post.mode is Normal
                &&& post.selected_index == pre.selected_index
                &&& post.filter_query@ == pre.filter_query@
                &&& post.error_message == pre.error_message
                &&& post.filtered_indices@
                    == matching_indices(post.fruits@, post.filter_query@)
            } else {
                modal_commit_fails(pre, post, m1)
            }
        },
        Key::Char(c) => {
            if c == 'q' {
                modal_closes(pre, post)
            } else {
                &&& same_but_modal(pre, post)
                &&& post.modal matches Some(m2) && insert_char_rel(m1, m2, c)
            }
        },
        _ => same_state(pre, post),
    }
}

/// The transition table of the edit modal. A valid commit replaces the
/// selected record in place; without a selection the modal just closes.
pub open spec fn edit_fruit_modal_step(pre: AppState, key: Key, post: AppState) -> bool {
    pre.modal matches Some(m1) ==> match key {
        Key::Esc => modal_closes(pre, post),
        Key::Tab => {
            &&& same_but_modal(pre, post)
            &&& post.modal matches Some(m2) && focus_next_rel(m1, m2)
        },
        Key::BackTab => {
            &&& same_but_modal(pre, post)
            &&& post.modal matches Some(m2) && focus_prev_rel(m1, m2)
        },
        Key::Backspace => {
            &&& same_but_modal(pre, post)
            &&& post.modal matches Some(m2) && backspace_rel(m1, m2)
        },
        Key::Enter => {
            if modal_valid(m1) {
                match pre.spec_selected_abs() {
                    Some(i) => {
                        &&& 0 <= i < pre.fruits@.len()
                        &&& post.fruits@.len() == pre.fruits@.len()
                        &&& built_record_matches(post.fruits@[i as int], m1)
                        &&& forall|j: int|
                            0 <= j < pre.fruits@.len() && j != i
                                ==> post.fruits@[j] == pre.fruits@[j]
                        &&& post.dirty
                        &&& post.modal is None
                        &&& post.mode is Normal
                        &&& post.filter_query@ == pre.filter_query@
                        &&& post.error_message == pre.error_message
                        &&& post.filtered_indices@
                            == matching_indices(post.fruits@, post.filter_query@)
                        &&& post.selected_index as int == clamped_index(
                            pre.selected_index as int,
                            post.display_len() as int,
                        )
                    },
                    None => modal_closes(pre, post),
                }
            } else {
                modal_commit_fails(pre, post, m1)
            }
        },
        Key::Char(c) => {
            if c == 'q' {
                modal_closes(pre, post)
            } else {
                &&& same_but_modal(pre, post)
                &&& post.modal matches Some(m2) && insert_char_rel(m1, m2, c)
            }
        },
        _ => same_state(pre, post),
    }
}

/// The transition table of the help overlay: Esc, `q`, `?` or Enter leave
/// it, everything else is ignored.
pub open spec fn help_step(pre: AppState, key: Key, post: AppState) -> bool {
    match key {
        Key::Esc | Key::Enter => same_but_mode(pre, post, AppMode::Normal),
        Key::Char(c) => {
            if c == 'q' || c == '?' {
                same_but_mode(pre, post, AppMode::Normal)
            } else {
                same_state(pre, post)
            }
        },
        _ => same_state(pre, post),
    }
}

/// One key press, routed by the current mode.
pub open spec fn key_step(pre: AppState, key: Key, post: AppState, quit: bool) -> bool {
    match pre.mode {
        AppMode::Normal => normal_step(pre, key, post, quit),
        AppMode::Filter => filter_step(pre, key, post) && !quit,
        AppMode::ConfirmDelete => confirm_delete_step(pre, key, post) && !quit,
        AppMode::AddFruit => add_fruit_modal_step(pre, key, post) && !quit,
        AppMode::EditFruit => edit_fruit_modal_step(pre, key, post) && !quit,
        AppMode::Help => help_step(pre, key, post) && !quit,
    }
}

/// One event: an explicit quit request quits at once, a key press steps
/// the state machine.
pub open spec fn event_step(pre: AppState, event: AppEvent, post: AppState, quit: bool) -> bool {
    match event {
        AppEvent::Quit => same_state(pre, post) && quit,
        AppEvent::KeyPress(k) => key_step(pre, k, post, quit),
    }
}

/// Handle one input event and update the state accordingly; the result
/// says whether a quit was accepted. Never fails.
pub fn handle_event(state: &mut AppState, event: AppEvent) -> (r: Result<bool, AppError>)
    requires
        old(state).wf(),
    ensures
        final(state).wf(),
        r matches Ok(quit) && event_step(*old(state), event, *final(state), quit),
{
    match event {
        AppEvent::Quit => Ok(true),
        AppEvent::KeyPress(key) => handle_key_press(state, key),
    }
}

/// Route one key press to the handler of the current mode.
fn handle_key_press(state: &mut AppState, key: Key) -> (r: Result<bool, AppError>)
    requires
        old(state).wf(),
    ensures
        final(state).wf(),
        r matches Ok(quit) && key_step(*old(state), key, *final(state), quit),
{
    let mode = state.mode;
    match mode {
        AppMode::Normal => handle_normal_mode(state, key),
        AppMode::Filter => handle_filter_mode(state, key),
        AppMode::ConfirmDelete => handle_delete_confirm(state, key),
        AppMode::AddFruit => handle_add_fruit_modal(state, key),
        AppMode::EditFruit => handle_edit_fruit_modal(state, key),
        AppMode::Help => handle_help_modal(state, key),
    }
}

fn handle_normal_mode(state: &mut AppState, key: Key) -> (r: Result<bool, AppError>)
    requires
        old(state).wf(),
        old(state).mode is Normal,
    ensures
        final(state).wf(),
        r matches Ok(quit) && normal_step(*old(state), key, *final(state), quit),
{
    if key == Key::CtrlS {
        // Saving is delegated to the caller; the state is untouched.
        Ok(false)
    } else if key == Key::Esc || key == Key::Char('q') {
        if state.error_message.is_some() {
            state.clear_error();
            Ok(false)
        } else if state.dirty {
            state.set_error(String::from_str(
                "Unsaved changes! Press Ctrl+S to save or press 'q' again to discard",
            ));
            Ok(false)
        } else {
            Ok(true)
        }
    } else if key == Key::Up || key == Key::Char('k') {
        state.select_previous();
        Ok(false)
    } else if key == Key::Down || key == Key::Char('j') {
        state.select_next();
        Ok(false)
    } else if key == Key::Char('/') {
        state.mode = AppMode::Filter;
        Ok(false)
    } else if key == Key::Char('a') {
        state.modal = Some(ModalState::new());
        state.mode = AppMode::AddFruit;
        Ok(false)
    } else if key == Key::Char('e') {
        let prefilled = match state.selected_fruit() {
            Some(fruit) => Some(ModalState::from_fruit(fruit)),
            None => None,
        };
        match prefilled {
            Some(m) => {
                state.modal = Some(m);
                state.mode = AppMode::EditFruit;
            },
            None => {},
        }
        Ok(false)
    } else if key == Key::Char('d') {
        state.mode = AppMode::ConfirmDelete;
        Ok(false)
    } else if key == Key::Char('?') {
        state.mode = AppMode::Help;
        Ok(false)
    } else {
        Ok(false)
    }
}

fn handle_filter_mode(state: &mut AppState, key: Key) -> (r: Result<bool, AppError>)
    requires
        old(state).wf(),
        old(state).mode is Filter,
    ensures
        final(state).wf(),
        r matches Ok(quit) && filter_step(*old(state), key, *final(state)) && !quit,
{
    if key == Key::Esc {
        state.mode = AppMode::Normal;
        state.clear_filter();
        Ok(false)
    } else if key == Key::Backspace {
        pop_char(&mut state.filter_query);
        let query = state.filter_query.clone();
        state.update_filter(query.as_str());
        Ok(false)
    } else if key == Key::Enter {
        state.mode = AppMode::Normal;
        Ok(false)
    } else if let Key::Char(c) = key {
        push_char(&mut state.filter_query, c);
        let query = state.filter_query.clone();
        state.update_filter(query.as_str());
        Ok(false)
    } else {
        Ok(false)
    }
}

fn handle_delete_confirm(state: &mut AppState, key: Key) -> (r: Result<bool, AppError>)
    requires
        old(state).wf(),
        old(state).mode is ConfirmDelete,
    ensures
        final(state).wf(),
        r matches Ok(quit) && confirm_delete_step(*old(state), key, *final(state)) && !quit,
{
    if key == Key::Char('y') {
        match state.selected_fruit_index() {
            Some(idx) => {
                proof {
                    assert(state.fruits.len() == state.fruits@.len());
                    lemma_matching_indices_props(state.fruits@, state.filter_query@);
                }
                match state.delete_fruit(idx) {
                    Ok(_) => {},
                    Err(e) => {
                        return Err(e);
                    },
                }
                state.clear_error();
            },
            None => {},
        }
        state.mode = AppMode::Normal;
        Ok(false)
    } else if key == Key::Char('n') || key == Key::Esc {
        state.mode = AppMode::Normal;
        state.clear_error();
        Ok(false)
    } else {
        Ok(false)
    }
}

fn handle_add_fruit_modal(state: &mut AppState, key: Key) -> (r: Result<bool, AppError>)
    requires
        old(state).wf(),
        old(state).mode is AddFruit,
    ensures
        final(state).wf(),
        r matches Ok(quit) && add_fruit_modal_step(*old(state), key, *final(state)) && !quit,
{
    if key == Key::Esc || key == Key::Char('q') {
        state.modal = None;
        state.mode = AppMode::Normal;
        Ok(false)
    } else if key == Key::Tab {
        if let Some(modal) = &mut state.modal {
            modal.next_field();
        }
        Ok(false)
    } else if key == Key::BackTab {
        if let Some(modal) = &mut state.modal {
            modal.prev_field();
        }
        Ok(false)
    } else if key == Key::Backspace {
        if let Some(modal) = &mut state.modal {
            modal.backspace();
        }
        Ok(false)
    } else if key == Key::Enter {
        let built = if let Some(modal) = &mut state.modal {
            Some(modal.validate_and_build())
        } else {
            None
        };
        match built {
            Some(Ok(fruit)) => {
                match state.add_fruit(fruit) {
                    Ok(_) => {},
                    Err(e) => {
                        return Err(e);
                    },
                }
                proof {
                    assert(state.fruits@.drop_last() =~= old(state).fruits@);
                }
                state.modal = None;
                state.mode = AppMode::Normal;
            },
            _ => {
                // Validation failed: the modal stays open with its error.
            },
        }
        Ok(false)
    } else if let Key::Char(c) = key {
        if let Some(modal) = &mut state.modal {
            modal.insert_char(c);
        }
        Ok(false)
    } else {
        Ok(false)
    }
}

fn handle_edit_fruit_modal(state: &mut AppState, key: Key) -> (r: Result<bool, AppError>)
    requires
        old(state).wf(),
        old(state).mode is EditFruit,
    ensures
        final(state).wf(),
        r matches Ok(quit) && edit_fruit_modal_step(*old(state), key, *final(state)) && !quit,
{
    if key == Key::Esc || key == Key::Char('q') {
        state.modal = None;
        state.mode = AppMode::Normal;
        Ok(false)
    } else if key == Key::Tab {
        if let Some(modal) = &mut state.modal {
            modal.next_field();
        }
        Ok(false)
    } else if key == Key::BackTab {
        if let Some(modal) = &mut state.modal {
            modal.prev_field();
        }
        Ok(false)
    } else if key == Key::Backspace {
        if let Some(modal) = &mut state.modal {
            modal.backspace();
        }
        Ok(false)
    } else if key == Key::Enter {
        let built = if let Some(modal) = &mut state.modal {
            Some(modal.validate_and_build())
        } else {
            None
        };
        match built {
            Some(Ok(fruit)) => {
                match state.selected_fruit_index() {
                    Some(idx) => {
                        proof {
                            assert(state.fruits.len() == state.fruits@.len());
                            lemma_matching_indices_props(state.fruits@, state.filter_query@);
                        }
                        match state.update_fruit(idx, fruit) {
                            Ok(_) => {},
                            Err(e) => {
                                return Err(e);
                            },
                        }
                    },
                    None => {},
                }
                state.modal = None;
                state.mode = AppMode::Normal;
            },
            _ => {
                // Validation failed: the modal stays open with its error.
            },
        }
        Ok(false)
    } else if let Key::Char(c) = key {
        if let Some(modal) = &mut state.modal {
            modal.insert_char(c);
        }
        Ok(false)
    } else {
        Ok(false)
    }
}

fn handle_help_modal(state: &mut AppState, key: Key) -> (r: Result<bool, AppError>)
    requires
        old(state).wf(),
        old(state).mode is Help,
    ensures
        final(state).wf(),
        r matches Ok(quit) && help_step(*old(state), key, *final(state)) && !quit,
{
    if key == Key::Esc || key == Key::Char('q') || key == Key::Char('?') || key == Key::Enter {
        state.mode = AppMode::Normal;
    }
    Ok(false)
}

} // verus!
