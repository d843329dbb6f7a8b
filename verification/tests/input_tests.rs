use feedview::feed::{Emphasis, FeedEntry, FeedListView};
use feedview::input::{Key, KeyPhase};

fn view(n: usize) -> FeedListView {
    let mut v: Vec<FeedEntry> = Vec::new();
    for i in 0..n {
        v.push(FeedEntry { label: format!("feed {}", i), emphasis: Emphasis::Plain });
    }
    FeedListView::new(v)
}

#[test]
fn pressed_down_and_up_navigate() {
    let mut v = view(3);
    v.handle_key(Key::Down, KeyPhase::Press);
    assert_eq!(v.cursor(), Some(1));
    v.handle_key(Key::Down, KeyPhase::Press);
    assert_eq!(v.cursor(), Some(2));
    v.handle_key(Key::Up, KeyPhase::Press);
    assert_eq!(v.cursor(), Some(1));
}

#[test]
fn release_and_repeat_phases_are_ignored() {
    let mut v = view(3);
    v.handle_key(Key::Down, KeyPhase::Release);
    assert_eq!(v.cursor(), Some(0));
    v.handle_key(Key::Down, KeyPhase::Repeat);
    assert_eq!(v.cursor(), Some(0));
    v.handle_key(Key::Up, KeyPhase::Release);
    assert_eq!(v.cursor(), Some(0));
}

#[test]
fn other_keys_leave_the_selection_alone() {
    let mut v = view(3);
    v.handle_key(Key::Other, KeyPhase::Press);
    assert_eq!(v.cursor(), Some(0));
    v.handle_key(Key::Down, KeyPhase::Press);
    v.handle_key(Key::Other, KeyPhase::Press);
    assert_eq!(v.cursor(), Some(1));
}

#[test]
fn key_events_on_empty_list_are_inert() {
    let mut v = view(0);
    v.handle_key(Key::Down, KeyPhase::Press);
    assert_eq!(v.cursor(), None);
    v.handle_key(Key::Up, KeyPhase::Press);
    assert_eq!(v.cursor(), None);
}

#[test]
fn pressed_down_clamps_at_last_entry() {
    let mut v = view(2);
    for _ in 0..4 {
        v.handle_key(Key::Down, KeyPhase::Press);
    }
    assert_eq!(v.cursor(), Some(1));
}
