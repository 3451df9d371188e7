//! What a key press does: how it changes the interaction state, and the
//! command it leaves for the front end to carry out.

use crate::ui_state::{InputBoxApp, InputMode, PopupApp};
use vstd::prelude::*;

verus! {

/// A key press, as far as the reader tells keys apart.
#[derive(Debug, Clone, Copy, PartialEq, Eq, Structural)]
pub enum Key {
    Char(char),
    Enter,
    Backspace,
    Esc,
    PageUp,
    PageDown,
    Up,
    Down,
    Other,
}

/// The work a key press asks of the front end.
#[derive(Debug)]
pub enum Command {
    /// Nothing beyond the change of interaction state.
    Nothing,
    /// Add the feed described by the submitted line.
    AddFeed(String),
    /// Remove the selected feed.
    DeleteFeed,
    /// Refresh the articles of the feed at this position, in the background.
    Refresh(usize),
    /// Select the next feed.
    NextFeed,
    /// Select the previous feed.
    PreviousFeed,
    /// Select the next article.
    NextArticle,
    /// Select the previous article.
    PreviousArticle,
    /// Leave the reader.
    Quit,
}

/// Relies on `String::push`: appends one character.
#[verifier::external_body]
fn push_char(s: &mut String, c: char)
    ensures
        final(s)@ == old(s)@.push(c),
{
    s.push(c)
}

/// Relies on `String::pop`: removes the last character, if there is one.
#[verifier::external_body]
fn pop_char(s: &mut String) -> (r: Option<char>)
    ensures
        old(s)@.len() == 0 ==> r is None && final(s)@ == old(s)@,
        old(s)@.len() > 0 ==> r == Some(old(s)@.last()) && final(s)@ == old(s)@.drop_last(),
{
    s.pop()
}

/// Handles a key press while the feed at position `selected_feed` is
/// selected.
///
/// In normal mode: `a` starts typing a feed line; `d` and `r` remove and
/// refresh the selected feed, except the first one, and `r` shows the
/// refresh notice; `h` shows the help; page keys move between feeds, arrow
/// keys between articles; `q` quits. While typing: Enter submits the line and
/// empties the box, characters are appended, Backspace removes the last one,
/// Esc returns to normal mode. With a popup on show, Esc closes it.
pub fn handle_key(
    input: &mut InputBoxApp,
    popups: &mut PopupApp,
    selected_feed: usize,
    key: Key,
) -> (r: Command)
    ensures
        old(input).input_mode == InputMode::Normal ==> {
            &&& final(input).text_input@ == old(input).text_input@
            &&& match key {
                Key::Char('a') => r is Nothing && final(input).input_mode == InputMode::Editing
                    && *final(popups) == *old(popups),
                Key::Char('d') => (if selected_feed > 0 {
                    r is DeleteFeed
                } else {
                    r is Nothing
                }) && final(input).input_mode == InputMode::Normal && *final(popups) == *old(
                    popups,
                ),
                Key::Char('r') => if selected_feed > 0 {
                    r == Command::Refresh(selected_feed) && final(input).input_mode
                        == InputMode::Popup && final(popups).show_refresh_popup
                        && final(popups).show_help_popup == old(popups).show_help_popup
                } else {
                    r is Nothing && final(input).input_mode == InputMode::Normal && *final(popups)
                        == *old(popups)
                },
                Key::Char('h') => r is Nothing && final(input).input_mode == InputMode::Popup
                    && final(popups).show_help_popup && final(popups).show_refresh_popup == old(
                    popups,
                ).show_refresh_popup,
                Key::Char('q') => r is Quit && final(input).input_mode == InputMode::Normal
                    && *final(popups) == *old(popups),
                Key::PageDown => r is NextFeed && final(input).input_mode == InputMode::Normal
                    && *final(popups) == *old(popups),
                Key::PageUp => r is PreviousFeed && final(input).input_mode == InputMode::Normal
                    && *final(popups) == *old(popups),
                Key::Down => r is NextArticle && final(input).input_mode == InputMode::Normal
                    && *final(popups) == *old(popups),
                Key::Up => r is PreviousArticle && final(input).input_mode == InputMode::Normal
                    && *final(popups) == *old(popups),
                _ => r is Nothing && final(input).input_mode == InputMode::Normal && *final(popups)
                    == *old(popups),
            }
        },
        old(input).input_mode == InputMode::Editing ==> {
            &&& *final(popups) == *old(popups)
            &&& match key {
                Key::Enter => (r matches Command::AddFeed(line) && line@ == old(input).text_input@)
                    && final(input).text_input@ == Seq::<char>::empty() && final(input).input_mode
                    == InputMode::Editing,
                Key::Char(c) => r is Nothing && final(input).text_input@ == old(
                    input,
                ).text_input@.push(c) && final(input).input_mode == InputMode::Editing,
                Key::Backspace => r is Nothing && final(input).input_mode == InputMode::Editing && (
                if old(input).text_input@.len() > 0 {
                    final(input).text_input@ == old(input).text_input@.drop_last()
                } else {
                    final(input).text_input@ == old(input).text_input@
                }),
                Key::Esc => r is Nothing && final(input).input_mode == InputMode::Normal
                    && final(input).text_input@ == old(input).text_input@,
                _ => r is Nothing && final(input).input_mode == InputMode::Editing
                    && final(input).text_input@ == old(input).text_input@,
            }
        },
        old(input).input_mode == InputMode::Popup ==> {
            &&& r is Nothing
            &&& final(input).text_input@ == old(input).text_input@
            &&& key == Key::Esc ==> final(input).input_mode == InputMode::Normal
                && !final(popups).show_refresh_popup && !final(popups).show_help_popup
            &&& key != Key::Esc ==> final(input).input_mode == InputMode::Popup && *final(popups)
                == *old(popups)
        },
{
    match input.input_mode {
        InputMode::Normal => match key {
            Key::Char('a') => {
                input.input_mode = InputMode::Editing;
                Command::Nothing
            },
            Key::Char('d') => {
                if selected_feed > 0 {
                    Command::DeleteFeed
                } else {
                    Command::Nothing
                }
            },
            Key::Char('r') => {
                if selected_feed > 0 {
                    popups.show_refresh_popup = true;
                    input.input_mode = InputMode::Popup;
                    Command::Refresh(selected_feed)
                } else {
                    Command::Nothing
                }
            },
            Key::Char('h') => {
                popups.show_help_popup = true;
                input.input_mode = InputMode::Popup;
                Command::Nothing
            },
            Key::Char('q') => Command::Quit,
            Key::PageDown => Command::NextFeed,
            Key::PageUp => Command::PreviousFeed,
            Key::Down => Command::NextArticle,
            Key::Up => Command::PreviousArticle,
            _ => Command::Nothing,
        },
        InputMode::Editing => match key {
            Key::Enter => {
                let line = input.text_input.clone();
                input.text_input = String::new();
                Command::AddFeed(line)
            },
            Key::Char(c) => {
                push_char(&mut input.text_input, c);
                Command::Nothing
            },
            Key::Backspace => {
                pop_char(&mut input.text_input);
                Command::Nothing
            },
            Key::Esc => {
                input.input_mode = InputMode::Normal;
                Command::Nothing
            },
            _ => Command::Nothing,
        },
        InputMode::Popup => match key {
            Key::Esc => {
                popups.show_refresh_popup = false;
                popups.show_help_popup = false;
                input.input_mode = InputMode::Normal;
                Command::Nothing
            },
            _ => Command::Nothing,
        },
    }
}

} // verus!
