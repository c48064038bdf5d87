use galatea::selection::MultiSelection;
use galatea::task::Task;

#[test]
fn a_new_selection_is_empty() {
    let s: MultiSelection<Task> = MultiSelection::new();
    assert_eq!(s.count(), 0);
    assert!(!s.is_selected(0));
    assert!(s.get_selected_indices().is_empty());
}

#[test]
fn toggle_selects_and_deselects() {
    let mut s: MultiSelection<Task> = MultiSelection::new();
    s.toggle(3);
    assert!(s.is_selected(3));
    assert_eq!(s.count(), 1);
    s.toggle(3);
    assert!(!s.is_selected(3));
    assert_eq!(s.count(), 0);
    s.toggle(3);
    s.toggle(1);
    assert!(s.is_selected(1) && s.is_selected(3) && !s.is_selected(2));
    assert_eq!(s.count(), 2);
}

#[test]
fn selected_indices_come_in_ascending_order() {
    let mut s: MultiSelection<u8> = MultiSelection::new();
    for i in [9, 2, 7, 0, usize::MAX, 4, 2, 11, 2] {
        s.toggle(i);
    }
    assert_eq!(s.get_selected_indices(), vec![0, 2, 4, 7, 9, 11, usize::MAX]);
    assert_eq!(s.count(), 7);
    s.toggle(7);
    assert_eq!(s.get_selected_indices(), vec![0, 2, 4, 9, 11, usize::MAX]);
}

#[test]
fn clear_empties_the_selection() {
    let mut s: MultiSelection<Task> = MultiSelection::new();
    s.toggle(1);
    s.toggle(2);
    s.clear();
    assert_eq!(s.count(), 0);
    assert!(!s.is_selected(1));
    assert!(s.get_selected_indices().is_empty());
    s.clear();
    assert_eq!(s.count(), 0);
}
