//! Tests for the event dispatcher: mode routing, the quit guard, and the
//! end-to-end add/edit/delete flows.

use fruitcat::events::{handle_event, AppEvent, Key};
use fruitcat::modal::InputField;
use fruitcat::record::FruitDimensions;
use fruitcat::state::{AppMode, AppState};

fn rec(name: &str, l: &str, w: &str, h: &str) -> FruitDimensions {
    FruitDimensions {
        name: name.to_string(),
        length: l.to_string(),
        width: w.to_string(),
        height: h.to_string(),
    }
}

fn sample() -> Vec<FruitDimensions> {
    vec![rec("Apple", "1", "2", "3"), rec("Banana", "4.5", "1.5", "1.5")]
}

fn press(state: &mut AppState, key: Key) -> bool {
    handle_event(state, AppEvent::KeyPress(key)).unwrap()
}

fn type_keys(state: &mut AppState, text: &str) {
    for c in text.chars() {
        press(state, Key::Char(c));
    }
}

#[test]
fn quit_event_signals_quit() {
    let mut s = AppState::new(sample());
    assert!(handle_event(&mut s, AppEvent::Quit).unwrap());
}

#[test]
fn quit_key_quits_when_clean() {
    let mut s = AppState::new(sample());
    assert!(press(&mut s, Key::Char('q')));
    let mut s2 = AppState::new(sample());
    assert!(press(&mut s2, Key::Esc));
}

#[test]
fn quit_guard_on_unsaved_changes() {
    let mut s = AppState::new(sample());
    s.dirty = true;
    // First press: warn, stay.
    assert!(!press(&mut s, Key::Char('q')));
    assert_eq!(
        s.error_message.as_deref(),
        Some("Unsaved changes! Press Ctrl+S to save or press 'q' again to discard")
    );
    // Second press while the warning shows: clear it, still stay.
    assert!(!press(&mut s, Key::Char('q')));
    assert!(s.error_message.is_none());
    // Third press: still dirty, so the warning returns and nothing quits.
    assert!(!press(&mut s, Key::Char('q')));
    assert!(s.error_message.is_some());
    // Only once the catalogue is clean again does the quit go through.
    s.clear_error();
    s.dirty = false;
    assert!(press(&mut s, Key::Char('q')));
}

#[test]
fn save_combo_leaves_state_untouched() {
    let mut s = AppState::new(sample());
    s.dirty = true;
    assert!(!press(&mut s, Key::CtrlS));
    assert!(s.dirty, "persisting and clearing the flag is the caller's job");
    assert_eq!(s.mode, AppMode::Normal);
}

#[test]
fn navigation_keys_move_selection() {
    let mut s = AppState::new(sample());
    assert!(!press(&mut s, Key::Down));
    assert_eq!(s.selected_index, 1);
    assert!(!press(&mut s, Key::Char('j')));
    assert_eq!(s.selected_index, 1, "clamped at the bottom");
    assert!(!press(&mut s, Key::Up));
    assert_eq!(s.selected_index, 0);
    assert!(!press(&mut s, Key::Char('k')));
    assert_eq!(s.selected_index, 0, "clamped at the top");
}

#[test]
fn ignored_key_changes_nothing() {
    let mut s = AppState::new(sample());
    assert!(!press(&mut s, Key::Other));
    assert!(!press(&mut s, Key::Char('x')));
    assert_eq!(s.mode, AppMode::Normal);
    assert_eq!(s.selected_index, 0);
    assert!(!s.dirty);
}

#[test]
fn help_mode_opens_and_closes() {
    let mut s = AppState::new(sample());
    press(&mut s, Key::Char('?'));
    assert_eq!(s.mode, AppMode::Help);
    press(&mut s, Key::Down);
    assert_eq!(s.mode, AppMode::Help, "other keys are ignored in help");
    press(&mut s, Key::Char('?'));
    assert_eq!(s.mode, AppMode::Normal);
    press(&mut s, Key::Char('?'));
    press(&mut s, Key::Enter);
    assert_eq!(s.mode, AppMode::Normal);
    press(&mut s, Key::Char('?'));
    press(&mut s, Key::Esc);
    assert_eq!(s.mode, AppMode::Normal);
}

#[test]
fn filter_mode_types_and_refilters() {
    let mut s = AppState::new(sample());
    press(&mut s, Key::Char('/'));
    assert_eq!(s.mode, AppMode::Filter);
    type_keys(&mut s, "BAN");
    assert_eq!(s.filter_query, "ban", "the query is stored lowercase");
    assert_eq!(s.filtered_indices, vec![1]);
    press(&mut s, Key::Backspace);
    assert_eq!(s.filter_query, "ba");
    press(&mut s, Key::Enter);
    assert_eq!(s.mode, AppMode::Normal);
    assert!(s.is_filtering(), "Enter keeps the filter applied");
}

#[test]
fn filter_esc_clears_filter() {
    let mut s = AppState::new(sample());
    press(&mut s, Key::Char('/'));
    type_keys(&mut s, "ban");
    press(&mut s, Key::Esc);
    assert_eq!(s.mode, AppMode::Normal);
    assert!(!s.is_filtering());
    assert_eq!(s.filtered_indices, vec![0, 1]);
}

#[test]
fn add_fruit_flow_commits_record() {
    let mut s = AppState::new(Vec::new());
    press(&mut s, Key::Char('a'));
    assert_eq!(s.mode, AppMode::AddFruit);
    let modal = s.modal.as_ref().expect("a fresh modal opens");
    assert!(modal.name.is_empty());
    assert!(modal.error.is_none());
    type_keys(&mut s, "Apple");
    press(&mut s, Key::Tab);
    type_keys(&mut s, "1");
    press(&mut s, Key::Tab);
    type_keys(&mut s, "2");
    press(&mut s, Key::Tab);
    type_keys(&mut s, "3");
    press(&mut s, Key::Enter);
    assert_eq!(s.mode, AppMode::Normal);
    assert!(s.modal.is_none());
    assert!(s.dirty);
    assert_eq!(s.fruits.len(), 1);
    let f = &s.fruits[0];
    assert_eq!(f.name, "Apple");
    assert_eq!(f.length, "1");
    assert_eq!(f.width, "2");
    assert_eq!(f.height, "3");
}

#[test]
fn add_fruit_invalid_keeps_modal_open() {
    let mut s = AppState::new(Vec::new());
    press(&mut s, Key::Char('a'));
    type_keys(&mut s, "Apple");
    press(&mut s, Key::Enter);
    assert_eq!(s.mode, AppMode::AddFruit);
    let modal = s.modal.as_ref().unwrap();
    assert_eq!(modal.error.as_deref(), Some("Length must be a valid number"));
    assert_eq!(modal.name, "Apple", "buffers stay intact");
    assert!(s.fruits.is_empty());
    assert!(!s.dirty);
}

#[test]
fn add_modal_escape_discards() {
    let mut s = AppState::new(sample());
    press(&mut s, Key::Char('a'));
    type_keys(&mut s, "Pear");
    press(&mut s, Key::Esc);
    assert_eq!(s.mode, AppMode::Normal);
    assert!(s.modal.is_none());
    assert_eq!(s.fruits.len(), 2);
    assert!(!s.dirty);
}

#[test]
fn q_closes_add_modal() {
    // The q key closes the modal just like Esc, even while typing a name.
    let mut s = AppState::new(sample());
    press(&mut s, Key::Char('a'));
    press(&mut s, Key::Char('q'));
    assert!(s.modal.is_none());
    assert_eq!(s.mode, AppMode::Normal);
}

#[test]
fn edit_fruit_flow_replaces_record() {
    let mut s = AppState::new(sample());
    press(&mut s, Key::Down);
    press(&mut s, Key::Char('e'));
    assert_eq!(s.mode, AppMode::EditFruit);
    assert_eq!(s.modal.as_ref().unwrap().name, "Banana");
    assert_eq!(s.modal.as_ref().unwrap().length, "4.5");
    press(&mut s, Key::Backspace);
    press(&mut s, Key::Backspace);
    press(&mut s, Key::Backspace);
    press(&mut s, Key::Backspace);
    press(&mut s, Key::Backspace);
    press(&mut s, Key::Backspace);
    type_keys(&mut s, "Plantain");
    press(&mut s, Key::Enter);
    assert_eq!(s.mode, AppMode::Normal);
    assert!(s.modal.is_none());
    assert!(s.dirty);
    assert_eq!(s.fruits.len(), 2);
    assert_eq!(s.fruits[1].name, "Plantain");
    assert_eq!(s.fruits[1].length, "4.5", "other fields are kept");
}

#[test]
fn edit_with_no_selection_does_nothing() {
    let mut s = AppState::new(Vec::new());
    press(&mut s, Key::Char('e'));
    assert_eq!(s.mode, AppMode::Normal);
    assert!(s.modal.is_none());
}

#[test]
fn tab_cycles_modal_focus() {
    let mut s = AppState::new(Vec::new());
    press(&mut s, Key::Char('a'));
    assert_eq!(s.modal.as_ref().unwrap().focused_field, InputField::Name);
    press(&mut s, Key::Tab);
    assert_eq!(s.modal.as_ref().unwrap().focused_field, InputField::Length);
    press(&mut s, Key::BackTab);
    assert_eq!(s.modal.as_ref().unwrap().focused_field, InputField::Name);
    press(&mut s, Key::BackTab);
    assert_eq!(s.modal.as_ref().unwrap().focused_field, InputField::Height);
}

#[test]
fn confirm_delete_yes_removes_selected() {
    let mut s = AppState::new(sample());
    press(&mut s, Key::Down);
    press(&mut s, Key::Char('d'));
    assert_eq!(s.mode, AppMode::ConfirmDelete);
    press(&mut s, Key::Char('y'));
    assert_eq!(s.mode, AppMode::Normal);
    assert_eq!(s.fruits.len(), 1);
    assert_eq!(s.fruits[0].name, "Apple");
    assert!(s.dirty);
    assert_eq!(s.selected_index, 0, "selection clamped to the shorter list");
    assert!(s.error_message.is_none());
}

#[test]
fn confirm_delete_no_keeps_records() {
    let mut s = AppState::new(sample());
    press(&mut s, Key::Char('d'));
    press(&mut s, Key::Char('n'));
    assert_eq!(s.mode, AppMode::Normal);
    assert_eq!(s.fruits.len(), 2);
    assert!(!s.dirty);
    assert!(s.error_message.is_none());
}

#[test]
fn confirm_delete_esc_cancels() {
    let mut s = AppState::new(sample());
    press(&mut s, Key::Char('d'));
    press(&mut s, Key::Esc);
    assert_eq!(s.mode, AppMode::Normal);
    assert_eq!(s.fruits.len(), 2);
}

#[test]
fn confirm_delete_on_empty_catalogue() {
    let mut s = AppState::new(Vec::new());
    press(&mut s, Key::Char('d'));
    press(&mut s, Key::Char('y'));
    assert_eq!(s.mode, AppMode::Normal);
    assert!(s.fruits.is_empty());
    assert!(!s.dirty);
}

#[test]
fn delete_under_filter_uses_absolute_index() {
    let mut s = AppState::new(vec![
        rec("Apple", "1", "2", "3"),
        rec("Banana", "4.5", "1.5", "1.5"),
        rec("Mango", "3", "2.5", "2"),
    ]);
    press(&mut s, Key::Char('/'));
    type_keys(&mut s, "man");
    press(&mut s, Key::Enter);
    press(&mut s, Key::Char('d'));
    press(&mut s, Key::Char('y'));
    let names: Vec<&str> = s.fruits.iter().map(|f| f.name.as_str()).collect();
    assert_eq!(names, vec!["Apple", "Banana"], "Mango was deleted, not Apple");
}
