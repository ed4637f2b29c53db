use moxin::translator::bounded_drop_down::{
    clamp_selected_item, displayed_label, might_be_selected, select_next, select_previous, selected_label,
};

#[test]
fn selection_is_clamped_to_the_labels() {
    assert_eq!(clamp_selected_item(5, 3), 2);
    assert_eq!(clamp_selected_item(1, 3), 1);
    assert_eq!(clamp_selected_item(7, 0), 0);
}

#[test]
fn arrow_keys_move_within_the_values() {
    assert_eq!(select_previous(0), None);
    assert_eq!(select_previous(2), Some(1));
    assert_eq!(select_next(0, 3), Some(1));
    assert_eq!(select_next(2, 3), None);
    assert_eq!(select_next(0, 0), None);
    assert_eq!(select_next(usize::MAX, usize::MAX), None);
}

#[test]
fn labels_of_the_selection() {
    let labels = vec!["English".to_string(), "中文".to_string()];
    assert_eq!(selected_label(&labels, 1), "中文");
    assert_eq!(selected_label(&labels, 2), "");
    assert_eq!(displayed_label(&labels, 0), "English");
    assert_eq!(displayed_label(&labels, 9), " ");
}

#[test]
fn first_tap_after_opening_selects_nothing() {
    assert_eq!(might_be_selected(true), (false, false));
    assert_eq!(might_be_selected(false), (true, false));
}
