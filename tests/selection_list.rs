use lazy_etherscan::widget::{Spinner, StatefulList};

fn list_of(n: u64) -> StatefulList<u64> {
    StatefulList::with_items((0..n).collect())
}

#[test]
fn with_items_starts_unselected_below_two_headings() {
    let l = list_of(3);
    assert_eq!(l.selected, None);
    assert_eq!(l.header_size, 2);
    assert_eq!(l.items, vec![0, 1, 2]);
}

#[test]
fn next_from_nothing_selects_first_item() {
    let mut l = list_of(3);
    l.next();
    assert_eq!(l.selected, Some(2));
}

#[test]
fn previous_from_nothing_selects_first_item() {
    let mut l = list_of(3);
    l.previous();
    assert_eq!(l.selected, Some(2));
}

#[test]
fn next_wraps_from_last_to_first() {
    let mut l = list_of(3);
    l.selected = Some(4);
    l.next();
    assert_eq!(l.selected, Some(2));
}

#[test]
fn previous_wraps_from_first_to_last() {
    let mut l = list_of(3);
    l.selected = Some(2);
    l.previous();
    assert_eq!(l.selected, Some(4));
}

#[test]
fn next_then_previous_restores_selection() {
    for start in 2..5 {
        let mut l = list_of(3);
        l.selected = Some(start);
        l.next();
        l.previous();
        assert_eq!(l.selected, Some(start));
    }
}

#[test]
fn previous_then_next_restores_selection() {
    for start in 2..5 {
        let mut l = list_of(3);
        l.selected = Some(start);
        l.previous();
        l.next();
        assert_eq!(l.selected, Some(start));
    }
}

#[test]
fn single_item_list_stays_on_its_item() {
    let mut l = list_of(1);
    l.next();
    l.next();
    assert_eq!(l.selected, Some(2));
    l.previous();
    assert_eq!(l.selected, Some(2));
}

#[test]
fn selected_item_index_is_none_without_selection() {
    let l = list_of(3);
    assert_eq!(l.get_selected_item_index(), None);
}

#[test]
fn selected_item_index_subtracts_headings() {
    let mut l = list_of(3);
    l.selected = Some(3);
    assert_eq!(l.get_selected_item_index(), Some(1));
    l.header_size = 0;
    l.selected = Some(0);
    assert_eq!(l.get_selected_item_index(), Some(0));
}

#[test]
fn spinner_frames_follow_the_clock() {
    let s = Spinner::default();
    assert_eq!(s.frame_at(0), "\u{280b}");
    assert_eq!(s.frame_at(149), "\u{280b}");
    assert_eq!(s.frame_at(150), "\u{2819}");
    assert_eq!(s.frame_at(1499), "\u{280f}");
    assert_eq!(s.frame_at(1500), "\u{280b}");
    assert_eq!(s.frame_at(-5), "\u{280b}");
}

#[test]
fn spinner_now_shows_one_of_its_frames() {
    let s = Spinner::default();
    let now = s.to_string();
    let frames: Vec<String> = (0..10).map(|i| s.frame_at(i * 150)).collect();
    assert!(frames.contains(&now));
}
