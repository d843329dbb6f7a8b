use feedview::content::{command_prompt, default_entries, hint_bindings, title_text};
use feedview::feed::{Emphasis, FeedListView};
use feedview::layout::Band;

#[test]
fn title_and_prompt_texts() {
    assert_eq!(title_text(), "Newsboat r2.xx - Your feeds");
    assert_eq!(command_prompt(), ":");
}

#[test]
fn hint_legend_pairs_in_order() {
    let hints = hint_bindings();
    let expected = [
        ("q", "Quit"),
        ("ENTER", "Open"),
        ("n", "Next unread"),
        ("r", "Reload"),
        ("R", "Reload All"),
        ("A", "Mark Read"),
        ("C", "Mark All Read"),
        ("?", "Search"),
        ("h", "Help"),
    ];
    assert_eq!(hints.len(), expected.len());
    for (hint, (key, action)) in hints.iter().zip(expected.iter()) {
        assert_eq!(hint.key, *key);
        assert_eq!(hint.action, *action);
    }
}

#[test]
fn default_feed_list_contents() {
    let entries = default_entries();
    assert_eq!(entries.len(), 5);
    assert_eq!(entries[0].label, "   1     (0/37) Newsboat");
    assert_eq!(entries[0].emphasis, Emphasis::Accent);
    assert_eq!(entries[1].label, "   2 N  (2/902) xkcd.com");
    assert_eq!(entries[1].emphasis, Emphasis::Bold);
    assert_eq!(entries[2].label, "   3     (0/11) Software Defeined Radio with HackRF");
    assert_eq!(entries[2].emphasis, Emphasis::Plain);
    assert_eq!(entries[3].label, "   4     (0/23) Debiania");
    assert_eq!(entries[3].emphasis, Emphasis::Plain);
    assert_eq!(entries[4].label, "   5    (0/190) Ctrl blog");
    assert_eq!(entries[4].emphasis, Emphasis::Plain);
}

#[test]
fn default_list_renders_with_first_selected() {
    let mut v = FeedListView::new(default_entries());
    assert_eq!(v.cursor(), Some(0));
    let out = v.render(Band { x: 0, y: 1, width: 80, height: 21 });
    assert_eq!(out.rows.len(), 5);
    assert!(out.rows[0].selected);
    assert_eq!(out.rows[1].emphasis, Emphasis::Bold);
}
