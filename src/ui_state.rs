//! The interaction state of the terminal front end: the input mode, the
//! text being typed and the popups on show.

use vstd::prelude::*;

verus! {

/// How key presses are read.
#[derive(Debug, Clone, Copy, PartialEq, Eq, Structural)]
pub enum InputMode {
    /// Moving through the feeds and articles.
    Normal,
    /// Typing a new feed line.
    Editing,
    /// A popup is on show.
    Popup,
}

/// The text box where a new feed line is typed.
#[derive(Debug)]
pub struct InputBoxApp {
    /// What has been typed so far.
    pub text_input: String,
    /// How key presses are read.
    pub input_mode: InputMode,
}

impl InputBoxApp {
    /// An empty text box in normal mode.
    pub fn new() -> (r: InputBoxApp)
        ensures
            r.text_input@ == Seq::<char>::empty(),
            r.input_mode == InputMode::Normal,
    {
        InputBoxApp { text_input: String::new(), input_mode: InputMode::Normal }
    }
}

/// Which popups are on show.
#[derive(Debug, Clone, Copy, PartialEq, Eq, Structural)]
pub struct PopupApp {
    /// The notice that a refresh has started.
    pub show_refresh_popup: bool,
    /// The keyboard help.
    pub show_help_popup: bool,
}

impl PopupApp {
    /// No popup on show.
    pub fn new() -> (r: PopupApp)
        ensures
            !r.show_refresh_popup,
            !r.show_help_popup,
    {
        PopupApp { show_refresh_popup: false, show_help_popup: false }
    }
}

} // verus!
