use sycadrop::reorder::position_of_id;
use sycadrop::reorder::swap_by_id;
use sycadrop::ContentItem;

fn items() -> Vec<ContentItem> {
    vec![
        ContentItem { id: 0, name: "Test item 0".to_string() },
        ContentItem { id: 1, name: "Test item 1".to_string() },
        ContentItem { id: 2, name: "Test item 2".to_string() },
        ContentItem { id: 3, name: "Test item 3".to_string() },
    ]
}

#[test]
fn position_of_id_finds_the_item() {
    let list = items();
    assert_eq!(position_of_id(&list, 2), Some(2));
    assert_eq!(position_of_id(&list, 0), Some(0));
}

#[test]
fn position_of_id_of_a_missing_key_is_none() {
    let list = items();
    assert_eq!(position_of_id(&list, 9), None);
}

#[test]
fn position_of_id_picks_the_first_occurrence() {
    let list = vec![
        ContentItem { id: 5, name: "first".to_string() },
        ContentItem { id: 5, name: "second".to_string() },
    ];
    assert_eq!(position_of_id(&list, 5), Some(0));
}

#[test]
fn swap_by_id_swaps_the_two_items() {
    let mut list = items();
    assert!(swap_by_id(&mut list, 1, 3));
    assert_eq!(list[1].name, "Test item 3");
    assert_eq!(list[3].name, "Test item 1");
    assert_eq!(list[0].name, "Test item 0");
    assert_eq!(list[2].name, "Test item 2");
}

#[test]
fn swap_by_id_with_a_missing_key_changes_nothing() {
    let mut list = items();
    assert!(!swap_by_id(&mut list, 1, 9));
    assert_eq!(list, items());
}

#[test]
fn swap_by_id_onto_itself_changes_nothing() {
    let mut list = items();
    assert!(swap_by_id(&mut list, 2, 2));
    assert_eq!(list, items());
}
