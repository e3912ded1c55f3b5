//! Tests for the catalogue state: selection, filtering, and the record
//! operations.

use fruitcat::error::AppError;
use fruitcat::record::FruitDimensions;
use fruitcat::state::{AppMode, AppState};

fn rec(name: &str, l: &str, w: &str, h: &str) -> FruitDimensions {
    FruitDimensions {
        name: name.to_string(),
        length: l.to_string(),
        width: w.to_string(),
        height: h.to_string(),
    }
}

fn sample() -> Vec<FruitDimensions> {
    vec![
        rec("Apple", "1", "2", "3"),
        rec("Banana", "4.5", "1.5", "1.5"),
        rec("Mango", "3", "2.5", "2"),
    ]
}

fn names(state: &AppState) -> Vec<String> {
    state.display_fruits().iter().map(|f| f.name.clone()).collect()
}

#[test]
fn new_state_defaults() {
    let s = AppState::new(sample());
    assert_eq!(s.selected_index, 0);
    assert_eq!(s.mode, AppMode::Normal);
    assert!(!s.dirty);
    assert!(s.filter_query.is_empty());
    assert_eq!(s.filtered_indices, vec![0, 1, 2]);
    assert!(s.error_message.is_none());
    assert!(s.modal.is_none());
}

#[test]
fn select_next_then_previous_restores() {
    let mut s = AppState::new(sample());
    s.select_next();
    assert_eq!(s.selected_index, 1);
    s.select_previous();
    assert_eq!(s.selected_index, 0);
}

#[test]
fn selection_clamps_at_boundaries() {
    let mut s = AppState::new(sample());
    s.select_previous();
    assert_eq!(s.selected_index, 0, "no wraparound at the top");
    s.select_next();
    s.select_next();
    assert_eq!(s.selected_index, 2);
    s.select_next();
    assert_eq!(s.selected_index, 2, "no wraparound at the bottom");
}

#[test]
fn selection_noop_on_empty_list() {
    let mut s = AppState::new(Vec::new());
    s.select_next();
    assert_eq!(s.selected_index, 0);
    s.select_previous();
    assert_eq!(s.selected_index, 0);
}

#[test]
fn update_filter_shows_matching_records_in_order() {
    let mut s = AppState::new(sample());
    s.select_next();
    s.update_filter("an");
    assert_eq!(names(&s), vec!["Banana".to_string(), "Mango".to_string()]);
    assert_eq!(s.filtered_indices, vec![1, 2]);
    assert_eq!(s.selected_index, 0, "filtering resets the selection");
}

#[test]
fn filter_is_case_insensitive_both_ways() {
    let mut s = AppState::new(sample());
    s.update_filter("APPLE");
    assert_eq!(names(&s), vec!["Apple".to_string()]);
    let mut s2 = AppState::new(vec![rec("KIWI", "1", "1", "1")]);
    s2.update_filter("kiwi");
    assert_eq!(names(&s2), vec!["KIWI".to_string()]);
}

#[test]
fn filter_with_no_match_shows_nothing() {
    let mut s = AppState::new(sample());
    s.update_filter("pear");
    assert!(names(&s).is_empty());
    assert!(s.selected_fruit().is_none());
    assert!(s.selected_fruit_index().is_none());
}

#[test]
fn clear_filter_restores_full_list_and_order() {
    let mut s = AppState::new(sample());
    s.update_filter("an");
    s.clear_filter();
    assert_eq!(
        names(&s),
        vec!["Apple".to_string(), "Banana".to_string(), "Mango".to_string()]
    );
    assert!(!s.is_filtering());
    assert_eq!(s.filtered_indices, vec![0, 1, 2]);
}

#[test]
fn selected_fruit_resolves_through_filter() {
    let mut s = AppState::new(sample());
    s.update_filter("an");
    s.select_next();
    assert_eq!(s.selected_fruit_index(), Some(2));
    assert_eq!(s.selected_fruit().unwrap().name, "Mango");
}

#[test]
fn add_fruit_appends_and_marks_dirty() {
    let mut s = AppState::new(sample());
    let r = s.add_fruit(rec("Pear", "2", "2", "2"));
    assert!(r.is_ok());
    assert_eq!(s.fruits.len(), 4);
    assert_eq!(s.fruits[3].name, "Pear");
    assert!(s.dirty);
}

#[test]
fn add_then_delete_restores_content_and_stays_dirty() {
    let mut s = AppState::new(sample());
    let before: Vec<String> = s.fruits.iter().map(|f| f.name.clone()).collect();
    s.add_fruit(rec("Pear", "2", "2", "2")).unwrap();
    assert!(s.dirty);
    s.delete_fruit(3).unwrap();
    let after: Vec<String> = s.fruits.iter().map(|f| f.name.clone()).collect();
    assert_eq!(before, after);
    assert!(s.dirty);
}

#[test]
fn update_fruit_replaces_in_place() {
    let mut s = AppState::new(sample());
    s.update_fruit(1, rec("Plantain", "5", "1.5", "1.5")).unwrap();
    assert_eq!(s.fruits.len(), 3);
    assert_eq!(s.fruits[1].name, "Plantain");
    assert!(s.dirty);
}

#[test]
fn update_fruit_out_of_range_fails_without_mutation() {
    let mut s = AppState::new(sample());
    let r = s.update_fruit(3, rec("Pear", "2", "2", "2"));
    let e = r.unwrap_err();
    assert!(matches!(e, AppError::Validation(_)));
    assert_eq!(e.detail().as_str(), "Invalid fruit index");
    assert_eq!(s.fruits.len(), 3);
    assert_eq!(s.fruits[2].name, "Mango");
    assert!(!s.dirty);
}

#[test]
fn delete_fruit_out_of_range_fails_without_mutation() {
    let mut s = AppState::new(sample());
    let r = s.delete_fruit(17);
    let e = r.unwrap_err();
    assert!(matches!(e, AppError::Validation(_)));
    assert_eq!(e.detail().as_str(), "Invalid fruit index");
    assert_eq!(s.fruits.len(), 3);
    assert!(!s.dirty);
}

#[test]
fn delete_last_record_clamps_selection() {
    let mut s = AppState::new(sample());
    s.select_next();
    s.select_next();
    assert_eq!(s.selected_index, 2);
    s.delete_fruit(2).unwrap();
    assert_eq!(s.selected_index, 1);
}

#[test]
fn delete_only_record_leaves_selection_at_zero() {
    let mut s = AppState::new(vec![rec("Apple", "1", "1", "1")]);
    s.delete_fruit(0).unwrap();
    assert_eq!(s.selected_index, 0);
    assert!(s.fruits.is_empty());
    assert!(s.selected_fruit().is_none());
}

#[test]
fn delete_refreshes_filtered_indices() {
    let mut s = AppState::new(sample());
    s.update_filter("an");
    assert_eq!(s.filtered_indices, vec![1, 2]);
    s.delete_fruit(1).unwrap();
    assert_eq!(s.filtered_indices, vec![1], "Mango moved down one slot");
    assert_eq!(names(&s), vec!["Mango".to_string()]);
}

#[test]
fn add_under_filter_extends_match_list() {
    let mut s = AppState::new(sample());
    s.update_filter("an");
    s.add_fruit(rec("Rambutan", "2", "2", "2")).unwrap();
    assert_eq!(s.filtered_indices, vec![1, 2, 3]);
    s.add_fruit(rec("Fig", "1", "1", "1")).unwrap();
    assert_eq!(s.filtered_indices, vec![1, 2, 3], "a non-match stays hidden");
}

#[test]
fn set_and_clear_error() {
    let mut s = AppState::new(sample());
    s.set_error("boom".to_string());
    assert_eq!(s.error_message.as_deref(), Some("boom"));
    s.clear_error();
    assert!(s.error_message.is_none());
}

#[test]
fn error_variants_carry_their_detail() {
    let cases = [
        AppError::Io("disk".to_string()),
        AppError::FruitData("store".to_string()),
        AppError::Validation("bad".to_string()),
        AppError::Config("cfg".to_string()),
        AppError::Other("misc".to_string()),
    ];
    let expected = ["disk", "store", "bad", "cfg", "misc"];
    for (e, want) in cases.iter().zip(expected) {
        assert_eq!(e.detail().as_str(), want);
    }
}
