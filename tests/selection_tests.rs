use byte_bite::controls::{handle_key, Command, Key};
use byte_bite::model::{RSSFeed, UtcInstant};
use byte_bite::selection::Selection;
use byte_bite::ui_state::{InputBoxApp, InputMode, PopupApp};

fn feed(id: usize) -> RSSFeed {
    RSSFeed {
        rss_id: id,
        category: String::new(),
        name: String::new(),
        url: String::new(),
        created_at: UtcInstant { secs: 0, nanos: 0 },
    }
}

#[test]
fn feed_cursor_wraps_both_ways() {
    let mut s = Selection { feed: Some(4), article: Some(3) };
    s.next_feed(5);
    assert_eq!(s, Selection { feed: Some(0), article: Some(0) });
    s.article = Some(2);
    s.previous_feed(5);
    assert_eq!(s, Selection { feed: Some(4), article: Some(0) });
    s.previous_feed(5);
    assert_eq!(s.feed, Some(3));
    s.next_feed(5);
    assert_eq!(s.feed, Some(4));
}

#[test]
fn article_cursor_wraps_and_keeps_feed() {
    let mut s = Selection { feed: Some(2), article: Some(0) };
    s.previous_article(3);
    assert_eq!(s, Selection { feed: Some(2), article: Some(2) });
    s.next_article(3);
    assert_eq!(s, Selection { feed: Some(2), article: Some(0) });
    s.next_article(3);
    assert_eq!(s.article, Some(1));
}

#[test]
fn unset_cursor_stays_unset() {
    let mut s = Selection { feed: None, article: None };
    s.next_feed(3);
    assert_eq!(s, Selection { feed: None, article: Some(0) });
    s.article = None;
    s.next_article(3);
    assert_eq!(s.article, None);
}

#[test]
fn removing_selected_feed_moves_cursor_back() {
    let mut feeds: Vec<RSSFeed> = (1..=5).map(feed).collect();
    let mut s = Selection { feed: Some(2), article: Some(3) };
    s.remove_selected_feed(&mut feeds);
    assert_eq!(feeds.len(), 4);
    assert_eq!(s, Selection { feed: Some(1), article: Some(3) });
    let ids: Vec<usize> = feeds.iter().map(|f| f.rss_id).collect();
    assert_eq!(ids, vec![1, 2, 4, 5]);
}

#[test]
fn initial_states() {
    assert_eq!(Selection::new(), Selection { feed: Some(0), article: Some(0) });
    let p = PopupApp::new();
    assert!(!p.show_help_popup && !p.show_refresh_popup);
    let i = InputBoxApp::new();
    assert!(i.text_input.is_empty());
    assert_eq!(i.input_mode, InputMode::Normal);
}

#[test]
fn typing_and_submitting_a_feed_line() {
    let mut input = InputBoxApp::new();
    let mut popups = PopupApp::new();
    assert!(matches!(handle_key(&mut input, &mut popups, 0, Key::Char('a')), Command::Nothing));
    assert_eq!(input.input_mode, InputMode::Editing);
    for c in "a|bx".chars() {
        handle_key(&mut input, &mut popups, 0, Key::Char(c));
    }
    handle_key(&mut input, &mut popups, 0, Key::Backspace);
    assert_eq!(input.text_input, "a|b");
    match handle_key(&mut input, &mut popups, 0, Key::Enter) {
        Command::AddFeed(line) => assert_eq!(line, "a|b"),
        other => panic!("unexpected {:?}", other),
    }
    assert!(input.text_input.is_empty());
    assert_eq!(input.input_mode, InputMode::Editing);
    handle_key(&mut input, &mut popups, 0, Key::Esc);
    assert_eq!(input.input_mode, InputMode::Normal);
}

#[test]
fn first_feed_is_neither_removed_nor_refreshed() {
    let mut input = InputBoxApp::new();
    let mut popups = PopupApp::new();
    assert!(matches!(handle_key(&mut input, &mut popups, 0, Key::Char('d')), Command::Nothing));
    assert!(matches!(handle_key(&mut input, &mut popups, 0, Key::Char('r')), Command::Nothing));
    assert_eq!(input.input_mode, InputMode::Normal);
    assert!(matches!(handle_key(&mut input, &mut popups, 2, Key::Char('d')), Command::DeleteFeed));
    assert!(matches!(handle_key(&mut input, &mut popups, 2, Key::Char('r')), Command::Refresh(2)));
    assert_eq!(input.input_mode, InputMode::Popup);
    assert!(popups.show_refresh_popup);
    assert!(matches!(handle_key(&mut input, &mut popups, 2, Key::Char('q')), Command::Nothing));
    handle_key(&mut input, &mut popups, 2, Key::Esc);
    assert_eq!(input.input_mode, InputMode::Normal);
    assert!(!popups.show_refresh_popup);
}

#[test]
fn navigation_and_quit_keys() {
    let mut input = InputBoxApp::new();
    let mut popups = PopupApp::new();
    assert!(matches!(handle_key(&mut input, &mut popups, 1, Key::PageDown), Command::NextFeed));
    assert!(matches!(handle_key(&mut input, &mut popups, 1, Key::PageUp), Command::PreviousFeed));
    assert!(matches!(handle_key(&mut input, &mut popups, 1, Key::Down), Command::NextArticle));
    assert!(matches!(handle_key(&mut input, &mut popups, 1, Key::Up), Command::PreviousArticle));
    assert!(matches!(handle_key(&mut input, &mut popups, 1, Key::Char('h')), Command::Nothing));
    assert!(popups.show_help_popup);
    handle_key(&mut input, &mut popups, 1, Key::Esc);
    assert!(matches!(handle_key(&mut input, &mut popups, 1, Key::Char('q')), Command::Quit));
}
