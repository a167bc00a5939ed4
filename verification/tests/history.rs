use macopy::{History, HistoryItem, MAX_HISTORY_ITEMS};

fn text(content: &str) -> HistoryItem {
    HistoryItem::Text(content.to_string())
}

fn image(payload: &str) -> HistoryItem {
    HistoryItem::Image(payload.to_string())
}

#[test]
fn capacity_is_ten() {
    assert_eq!(MAX_HISTORY_ITEMS, 10);
}

#[test]
fn new_history_is_empty() {
    let history = History::new();
    assert_eq!(history.len(), 0);
    assert!(history.is_empty());
    assert!(history.snapshot().is_empty());
    assert!(history.get(0).is_none());
}

#[test]
fn capture_text_then_same_text_then_image() {
    let mut history = History::new();

    assert!(history.try_capture(text("hello")));
    assert_eq!(history.snapshot(), vec![text("hello")]);

    assert!(!history.try_capture(text("hello")));
    assert_eq!(history.snapshot(), vec![text("hello")]);

    let img1 = image("data:image/png;base64,aW1nMQ==");
    assert!(history.try_capture(img1.clone()));
    assert_eq!(history.snapshot(), vec![img1, text("hello")]);
}

#[test]
fn length_stays_within_capacity_after_every_capture() {
    let mut history = History::new();
    for round in 0..50 {
        history.try_capture(text(&format!("item {}", round % 7)));
        assert!(history.len() <= MAX_HISTORY_ITEMS);
        history.try_capture(image(&format!("data:image/png;base64,{}", round)));
        assert!(history.len() <= MAX_HISTORY_ITEMS);
    }
    assert_eq!(history.len(), MAX_HISTORY_ITEMS);
}

#[test]
fn same_content_twice_in_a_row_is_refused() {
    let mut history = History::new();
    history.try_capture(text("first"));
    assert!(history.try_capture(text("again")));
    let before = history.snapshot();
    assert!(!history.try_capture(text("again")));
    assert_eq!(history.snapshot(), before);
    assert_eq!(history.snapshot(), vec![text("again"), text("first")]);
}

#[test]
fn same_payload_in_another_variant_is_new() {
    let mut history = History::new();
    assert!(history.try_capture(text("payload")));
    assert!(history.try_capture(image("payload")));
    assert_eq!(history.snapshot(), vec![image("payload"), text("payload")]);
}

#[test]
fn displaced_content_is_taken_again_at_the_front() {
    let mut history = History::new();
    assert!(history.try_capture(text("A")));
    assert!(history.try_capture(text("B")));
    assert!(history.try_capture(text("A")));
    assert_eq!(history.snapshot(), vec![text("A"), text("B"), text("A")]);
    assert_eq!(history.len(), 3);
}

#[test]
fn eleven_distinct_items_leave_the_ten_most_recent() {
    let mut history = History::new();
    for n in 1..=11 {
        assert!(history.try_capture(text(&format!("item {}", n))));
    }
    let expected: Vec<HistoryItem> = (2..=11).rev().map(|n| text(&format!("item {}", n))).collect();
    assert_eq!(history.len(), 10);
    assert_eq!(history.snapshot(), expected);
    assert_eq!(history.get(0), Some(&text("item 11")));
    assert_eq!(history.get(9), Some(&text("item 2")));
    assert!(history.get(10).is_none());
}

#[test]
fn the_oldest_item_leaves_first() {
    let mut history = History::new();
    for n in 0..12 {
        history.try_capture(text(&format!("{}", n)));
    }
    let kept = history.snapshot();
    assert_eq!(kept.first(), Some(&text("11")));
    assert_eq!(kept.last(), Some(&text("2")));
    assert!(!kept.contains(&text("0")));
    assert!(!kept.contains(&text("1")));
}

#[test]
fn a_refused_capture_evicts_nothing() {
    let mut history = History::new();
    for n in 0..10 {
        history.try_capture(text(&format!("{}", n)));
    }
    let before = history.snapshot();
    assert!(!history.try_capture(text("9")));
    assert_eq!(history.snapshot(), before);
}

#[test]
fn get_counts_from_the_most_recent() {
    let mut history = History::new();
    history.try_capture(text("old"));
    history.try_capture(text("new"));
    assert_eq!(history.get(0), Some(&text("new")));
    assert_eq!(history.get(1), Some(&text("old")));
    assert_eq!(history.get(2), None);
    assert_eq!(history.get(usize::MAX), None);
}

#[test]
fn snapshot_is_a_copy() {
    let mut history = History::new();
    history.try_capture(text("one"));
    let copy = history.snapshot();
    history.try_capture(text("two"));
    assert_eq!(copy, vec![text("one")]);
    assert_eq!(history.snapshot(), vec![text("two"), text("one")]);
}

#[test]
fn replace_all_installs_the_items_as_they_are() {
    let mut history = History::new();
    history.try_capture(text("gone"));
    history.replace_all(vec![text("a"), text("a"), image("data:image/png;base64,xx")]);
    assert_eq!(
        history.snapshot(),
        vec![text("a"), text("a"), image("data:image/png;base64,xx")]
    );
    assert!(!history.try_capture(text("a")));
    assert!(history.try_capture(text("b")));
    assert_eq!(history.len(), 4);
}

#[test]
fn replace_all_with_nothing_empties_the_history() {
    let mut history = History::new();
    history.try_capture(text("gone"));
    history.replace_all(Vec::new());
    assert!(history.is_empty());
}

#[test]
fn an_overfull_restored_history_loses_one_item_per_capture() {
    let mut history = History::new();
    let restored: Vec<HistoryItem> = (0..12).map(|n| text(&format!("{}", n))).collect();
    history.replace_all(restored);
    assert_eq!(history.len(), 12);
    assert!(history.try_capture(text("fresh")));
    assert_eq!(history.len(), 12);
    assert_eq!(history.get(0), Some(&text("fresh")));
    assert_eq!(history.get(11), Some(&text("10")));
}

#[test]
fn items_are_equal_by_variant_and_payload() {
    assert_eq!(text("x"), text("x"));
    assert_ne!(text("x"), text("y"));
    assert_ne!(text("x"), image("x"));
    assert_eq!(image("x"), image("x"));
    assert_eq!(text("x").clone(), text("x"));
    assert_eq!(image("y").clone(), image("y"));
}
